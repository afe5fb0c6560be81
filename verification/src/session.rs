use vstd::prelude::*;
use hyper::header::Headers;

verus! {

#[verifier::external_type_specification]
#[verifier::external_body]
pub struct ExHeaders(hyper::header::Headers);

/// A character as header names compare it: ASCII letters in lower case.
pub open spec fn fold_char(c: char) -> char {
    if 'A' <= c && c <= 'Z' {
        ((c as u32) + 32) as char
    } else {
        c
    }
}

/// The key under which a header name is looked up: header names compare
/// equal when they differ only in the case of ASCII letters.
pub open spec fn header_key(name: Seq<char>) -> Seq<char> {
    Seq::new(name.len(), |i: int| fold_char(name[i]))
}

/// The header lines of `headers` as `get_raw` gives them, read as text,
/// each header under the `header_key` of its name.
pub uninterp spec fn header_map(headers: Headers) -> Map<Seq<char>, Seq<Seq<char>>>;

/// The cookies of the `Cookie` header as `headers.get::<Cookie>()` gives
/// them, or `None` where there is no such header or it does not parse.
pub uninterp spec fn header_cookies(headers: Headers) -> Option<Seq<Seq<char>>>;

/// A text that the `Cookie` header's parser keeps as one cookie, unchanged:
/// printable ASCII without `;` (so nothing to split at and nothing to trim).
pub open spec fn plain_cookie_text(s: Seq<char>) -> bool {
    forall|i: int| 0 <= i < s.len() ==> '!' <= #[trigger] s[i] && s[i] <= '~' && s[i] != ';'
}

/// The header map with no header.
pub open spec fn no_headers() -> Map<Seq<char>, Seq<Seq<char>>> {
    Map::empty()
}

/// `Headers::new`: a map with no header.
#[verifier::external_body]
fn headers_new() -> (res: Headers)
    ensures
        header_map(res) == no_headers(),
        header_cookies(res) is None,
{
    Headers::new()
}

/// `Headers::set_raw` with one line: header `name` now has that single
/// line, in place of whatever it had; no other header changes. Where `name`
/// is `Cookie` and the line is plain, the parsed cookies are that line; what
/// other lines parse to (split at `;`, each part trimmed) is left unsaid.
#[verifier::external_body]
fn headers_set_raw(headers: &mut Headers, name: &'static str, value: &str)
    ensures
        header_map(*final(headers)) == header_map(*old(headers)).insert(
            header_key(name@),
            seq![value@],
        ),
        header_key(name@) != header_key("Cookie"@) ==> header_cookies(*final(headers))
            == header_cookies(*old(headers)),
        header_key(name@) == header_key("Cookie"@) && plain_cookie_text(value@)
            ==> header_cookies(*final(headers)) == Some(seq![value@]),
{
    headers.set_raw(name, vec![value.as_bytes().to_vec()]);
}

/// `headers.get_mut::<Cookie>()` and, where it gives the cookies, a push of
/// `cookie` onto them. Gives whether there were cookies to push onto.
/// Headers other than `Cookie` do not change. How the `Cookie` line reads
/// through `get_raw` after the push is left unsaid here.
#[verifier::external_body]
fn headers_push_cookie(headers: &mut Headers, cookie: String) -> (res: bool)
    ensures
        res == header_cookies(*old(headers)) is Some,
        res ==> header_cookies(*final(headers)) == Some(
            header_cookies(*old(headers))->0.push(cookie@),
        ),
        !res ==> header_cookies(*final(headers)) is None,
        !res ==> header_map(*final(headers)) == header_map(*old(headers)),
        header_map(*final(headers)).remove(header_key("Cookie"@)) == header_map(
            *old(headers),
        ).remove(header_key("Cookie"@)),
{
    match headers.get_mut::<hyper::header::Cookie>() {
        Some(jar) => {
            jar.push(cookie);
            true
        },
        None => false,
    }
}

/// `Headers::clone`: the same lines and the same cookies.
#[verifier::external_body]
fn headers_clone(headers: &Headers) -> (res: Headers)
    ensures
        header_map(res) == header_map(*headers),
        header_cookies(res) == header_cookies(*headers),
{
    headers.clone()
}

} // verus!

verus! {

/// The part of a `Set-Cookie` value that goes back in the `Cookie` header:
/// everything before the first `;`, or all of it where there is none.
pub open spec fn cookie_pair(set_cookie: Seq<char>) -> Seq<char>
    decreases set_cookie.len(),
{
    if set_cookie.len() == 0 {
        set_cookie
    } else if set_cookie[0] == ';' {
        Seq::empty()
    } else {
        seq![set_cookie[0]] + cookie_pair(set_cookie.drop_first())
    }
}

proof fn lemma_cookie_pair_prefix(s: Seq<char>, k: int)
    requires
        0 <= k <= s.len(),
        forall|j: int| 0 <= j < k ==> s[j] != ';',
        k == s.len() || s[k] == ';',
    ensures
        cookie_pair(s) == s.subrange(0, k),
    decreases k,
{
    if k > 0 {
        lemma_cookie_pair_prefix(s.drop_first(), k - 1);
        assert(s.subrange(0, k) == seq![s[0]] + s.drop_first().subrange(0, k - 1));
    } else if s.len() == 0 {
        assert(s.subrange(0, 0) == s);
    } else {
        assert(s.subrange(0, 0) == Seq::<char>::empty());
    }
}

/// The cookie part of a `Set-Cookie` value is a prefix of it that holds no
/// `;` and stops only at the first `;`: it is the whole value where the
/// value holds no `;`.
pub proof fn lemma_cookie_pair_shape(set_cookie: Seq<char>)
    ensures
        cookie_pair(set_cookie).len() <= set_cookie.len(),
        cookie_pair(set_cookie) == set_cookie.subrange(0, cookie_pair(set_cookie).len() as int),
        forall|i: int| 0 <= i < cookie_pair(set_cookie).len() ==> #[trigger] cookie_pair(set_cookie)[i] != ';',
        (forall|i: int| 0 <= i < set_cookie.len() ==> #[trigger] set_cookie[i] != ';') ==> cookie_pair(set_cookie) == set_cookie,
        cookie_pair(set_cookie).len() < set_cookie.len() ==> set_cookie[cookie_pair(set_cookie).len() as int] == ';',
    decreases set_cookie.len(),
{
    if set_cookie.len() > 0 && set_cookie[0] != ';' {
        let rest = set_cookie.drop_first();
        lemma_cookie_pair_shape(rest);
        assert(set_cookie.subrange(0, cookie_pair(set_cookie).len() as int) == seq![set_cookie[0]]
            + rest.subrange(0, cookie_pair(rest).len() as int));
        if forall|i: int| 0 <= i < set_cookie.len() ==> #[trigger] set_cookie[i] != ';' {
            assert forall|i: int| 0 <= i < rest.len() implies #[trigger] rest[i] != ';' by {
                assert(rest[i] == set_cookie[i + 1]);
            }
            assert(set_cookie == seq![set_cookie[0]] + rest);
        }
    } else if set_cookie.len() == 0 {
        assert(set_cookie.subrange(0, 0) == set_cookie);
    } else {
        assert(set_cookie.subrange(0, 0) == Seq::<char>::empty());
    }
}

/// The `Cookie` part of a `Set-Cookie` value, as `split(';').next()` gives it.
pub fn cookie_pair_of(set_cookie: &str) -> (res: String)
    ensures
        res@ == cookie_pair(set_cookie@),
{
    let n = set_cookie.unicode_len();
    let mut k: usize = 0;
    let mut found = false;
    while !found && k < n
        invariant
            n == set_cookie@.len(),
            0 <= k <= n,
            forall|j: int| 0 <= j < k ==> set_cookie@[j] != ';',
            found ==> k < n && set_cookie@[k as int] == ';',
        decreases n - k, (if found { 0int } else { 1int }),
    {
        if set_cookie.get_char(k) == ';' {
            found = true;
        } else {
            k = k + 1;
        }
    }
    proof {
        lemma_cookie_pair_prefix(set_cookie@, k as int);
    }
    set_cookie.substring_char(0, k).to_owned()
}

/// The login session: the account's identifiers and the headers that go
/// with each request, the cookies among them.
pub struct WeChat {
    uin: String,
    sid: String,
    skey: String,
    device_id: String,
    headers: Headers,
}

/// The header lines that every session starts with, by `header_key`.
pub open spec fn initial_header_map() -> Map<Seq<char>, Seq<Seq<char>>> {
    no_headers().insert(header_key("Cookie"@), seq![""@]).insert(
        header_key("ContentType"@),
        seq!["application/json; charset=UTF-8"@],
    ).insert(header_key("Host"@), seq!["web.wechat.com"@]).insert(
        header_key("Referer"@),
        seq!["https://web.wechat.com/?&lang=zh_CN"@],
    ).insert(header_key("Accept"@), seq!["application/json, text/plain, */*"@])
}

impl WeChat {
    /// The session holds a `Cookie` header that parses.
    pub closed spec fn wf(&self) -> bool {
        header_cookies(self.headers) is Some
    }

    /// The header lines of the session, by `header_key`.
    pub closed spec fn header_lines(&self) -> Map<Seq<char>, Seq<Seq<char>>> {
        header_map(self.headers)
    }

    /// The cookies that the session sends.
    pub closed spec fn cookies(&self) -> Seq<Seq<char>> {
        header_cookies(self.headers)->0
    }

    /// The account's identifiers: uin, sid, skey and device id.
    pub closed spec fn ids(&self) -> (Seq<char>, Seq<char>, Seq<char>, Seq<char>) {
        (self.uin@, self.sid@, self.skey@, self.device_id@)
    }

    /// A fresh session: empty identifiers, the fixed headers, and a `Cookie`
    /// header that holds one empty cookie.
    pub fn new() -> (res: WeChat)
        ensures
            res.wf(),
            res.header_lines() == initial_header_map(),
            res.cookies() == seq![""@],
            res.ids() == (Seq::<char>::empty(), Seq::<char>::empty(), Seq::<char>::empty(), Seq::<char>::empty()),
    {
        let mut headers = headers_new();
        headers_set_raw(&mut headers, "Cookie", "");
        proof {
            reveal_strlit("");
            reveal_strlit("Cookie");
            reveal_strlit("ContentType");
            reveal_strlit("Host");
            reveal_strlit("Referer");
            reveal_strlit("Accept");
            assert(header_key("ContentType"@)[2] != header_key("Cookie"@)[2]);
            assert(header_key("Host"@)[0] != header_key("Cookie"@)[0]);
            assert(header_key("Referer"@)[0] != header_key("Cookie"@)[0]);
            assert(header_key("Accept"@)[0] != header_key("Cookie"@)[0]);
        }
        headers_set_raw(&mut headers, "ContentType", "application/json; charset=UTF-8");
        headers_set_raw(&mut headers, "Host", "web.wechat.com");
        headers_set_raw(&mut headers, "Referer", "https://web.wechat.com/?&lang=zh_CN");
        headers_set_raw(&mut headers, "Accept", "application/json, text/plain, */*");
        WeChat {
            uin: String::new(),
            sid: String::new(),
            skey: String::new(),
            device_id: String::new(),
            headers,
        }
    }

    /// Adds the cookie part of each `Set-Cookie` value, in order, to the
    /// cookies that the session sends. Nothing else changes.
    pub fn set_cookies(&mut self, cookies: &Vec<String>)
        requires
            old(self).wf(),
        ensures
            final(self).wf(),
            final(self).cookies() == old(self).cookies() + cookies@.map_values(
                |c: String| cookie_pair(c@),
            ),
            final(self).header_lines().remove(header_key("Cookie"@)) == old(
                self,
            ).header_lines().remove(header_key("Cookie"@)),
            final(self).ids() == old(self).ids(),
    {
        let n = cookies.len();
        let mut i: usize = 0;
        while i < n
            invariant
                n == cookies@.len(),
                0 <= i <= n,
                self.wf(),
                self.cookies() == old(self).cookies() + cookies@.take(i as int).map_values(
                    |c: String| cookie_pair(c@),
                ),
                self.header_lines().remove(header_key("Cookie"@)) == old(
                    self,
                ).header_lines().remove(header_key("Cookie"@)),
                self.ids() == old(self).ids(),
            decreases n - i,
        {
            let pair = cookie_pair_of(cookies[i].as_str());
            let pushed = headers_push_cookie(&mut self.headers, pair);
            proof {
                assert(pushed);
                assert(cookies@.take(i + 1).map_values(|c: String| cookie_pair(c@))
                    == cookies@.take(i as int).map_values(|c: String| cookie_pair(c@)).push(
                    cookie_pair(cookies@[i as int]@),
                ));
            }
            i = i + 1;
        }
        proof {
            assert(cookies@.take(n as int) == cookies@);
        }
    }

    /// A copy of the session's headers, to send with a request.
    pub fn headers(&self) -> (res: Headers)
        requires
            self.wf(),
        ensures
            header_map(res) == self.header_lines(),
            header_cookies(res) == Some(self.cookies()),
    {
        headers_clone(&self.headers)
    }
}

/// A fresh session sends exactly five headers: `Cookie` with an empty
/// line, `ContentType` asking for UTF-8 JSON, `Host` of the web server, a
/// `Referer` of its start page, and `Accept` for JSON and text.
pub proof fn lemma_initial_headers()
    ensures
        initial_header_map().dom().len() == 5,
        initial_header_map()[header_key("Cookie"@)] == seq![""@],
        initial_header_map()[header_key("ContentType"@)] == seq!["application/json; charset=UTF-8"@],
        initial_header_map()[header_key("Host"@)] == seq!["web.wechat.com"@],
        initial_header_map()[header_key("Referer"@)] == seq!["https://web.wechat.com/?&lang=zh_CN"@],
        initial_header_map()[header_key("Accept"@)] == seq!["application/json, text/plain, */*"@],
        header_key("cookie"@) == header_key("Cookie"@),
{
    reveal_strlit("Cookie");
    reveal_strlit("cookie");
    reveal_strlit("ContentType");
    reveal_strlit("Host");
    reveal_strlit("Referer");
    reveal_strlit("Accept");
    let kc = header_key("Cookie"@);
    let kt = header_key("ContentType"@);
    let kh = header_key("Host"@);
    let kr = header_key("Referer"@);
    let ka = header_key("Accept"@);
    assert(kt[2] != kc[2]);
    assert(kh[0] != kc[0] && kh[0] != kt[0]);
    assert(kr[0] != kc[0] && kr[0] != kt[0] && kr[0] != kh[0]);
    assert(ka[0] != kc[0] && ka[0] != kt[0] && ka[0] != kh[0] && ka[0] != kr[0]);
    assert(header_key("cookie"@) =~= kc);
    let m0 = no_headers();
    assert(m0.dom() =~= Set::<Seq<char>>::empty());
    assert(initial_header_map().dom() =~= set![kc, kt, kh, kr, ka]);
    assert(set![kc, kt, kh, kr, ka].len() == 5) by {
        assert(set![kc, kt, kh, kr, ka] == Set::<Seq<char>>::empty().insert(kc).insert(kt).insert(kh).insert(kr).insert(ka));
    }
}

} // verus!
