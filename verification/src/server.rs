use vstd::prelude::*;
use crate::session::{cookie_pair, WeChat};

verus! {

/// Where the login starts: the page that hands out a login uuid.
pub const UUID_URL: &'static str = "https://login.web.wechat.com/jslogin?appid=wx782c26e4c19acffb";

/// The address of a login QR code, before the uuid.
pub const QR_CODE_URL: &'static str = "https://login.weixin.qq.com/qrcode/";

/// The address that reports a login's progress, before the uuid.
pub const LOGIN_URL: &'static str = "https://login.weixin.qq.com/cgi-bin/mmwebwx-bin/login?uuid=";

/// The address that starts a logged-in session, before the pass ticket.
pub const INIT_URL: &'static str = "https://web.wechat.com/cgi-bin/mmwebwx-bin/webwxinit?lang=zh_CN&pass_ticket=";

/// Where the QR code image is written.
pub const QR_FILE: &'static str = "/tmp/qr.png";

/// Finds the uuid in the page that hands one out.
pub const UUID_PATTERN: &'static str = r#"uuid\s+=\s+"([\w=]+)""#;

/// Finds the address to go on to once the login is confirmed.
pub const REDIRECT_PATTERN: &'static str = r#"redirect_uri="([^"]+)""#;

/// Find the session's keys in the login page.
pub const SKEY_PATTERN: &'static str = r#"<skey>(.*)</skey>"#;
pub const SID_PATTERN: &'static str = r#"<wxsid>(.*)</wxsid>"#;
pub const UIN_PATTERN: &'static str = r#"<wxuin>(.*)</wxuin>"#;
pub const PASS_TICKET_PATTERN: &'static str = r#"<pass_ticket>(.*)</pass_ticket>"#;

/// The text of the first capture group of the first match of regular
/// expression `pattern` in `text`; `None` where the pattern is not a valid
/// expression, where it does not match, or where the group takes no part in
/// the match.
pub uninterp spec fn regex_group1(text: Seq<char>, pattern: Seq<char>) -> Option<Seq<char>>;

/// Whether `text` parses as a JSON value, as `serde_json` reads it.
pub uninterp spec fn json_parses(text: Seq<char>) -> bool;

/// The text that an optional string holds.
pub open spec fn text_of(s: Option<String>) -> Option<Seq<char>> {
    match s {
        Some(s) => Some(s@),
        None => None,
    }
}

/// `part` stands somewhere in `whole`.
pub open spec fn is_infix(part: Seq<char>, whole: Seq<char>) -> bool {
    exists|i: int| 0 <= i <= whole.len() - part.len() && #[trigger] whole.subrange(i, i + part.len()) == part
}

/// `regex::Regex::new(r)`, then `captures(c)` and `get(1)`: the text of the
/// first capture group of the first match, which is a part of `c`. The three
/// calls stand together because a compiled `Regex` is opaque here; their
/// joint result is named `regex_group1`.
#[verifier::external_body]
fn regex_cap(c: &str, r: &str) -> (res: Option<String>)
    ensures
        text_of(res) == regex_group1(c@, r@),
        res matches Some(s) ==> is_infix(s@, c@),
{
    let re = match regex::Regex::new(r) {
        Ok(re) => re,
        Err(_) => return None,
    };
    let caps = re.captures(c)?;
    let group = caps.get(1)?;
    Some(group.as_str().to_owned())
}

/// Whether `text.parse::<serde_json::Value>()` succeeds.
#[verifier::external_body]
fn parses_as_json(text: &str) -> (res: bool)
    ensures
        res == json_parses(text@),
{
    text.parse::<serde_json::Value>().is_ok()
}

/// `a` followed by `b`.
fn join(a: &str, b: &str) -> (res: String)
    ensures
        res@ == a@ + b@,
{
    let mut s = a.to_owned();
    s.append(b);
    s
}

/// The address of the QR code for `uuid`.
pub open spec fn qr_code_url(uuid: Seq<char>) -> Seq<char> {
    QR_CODE_URL@ + uuid
}

/// The address that reports the progress of login `uuid`: first whether the
/// code was scanned (`tip=1`), then whether the login was confirmed (`tip=0`).
pub open spec fn poll_url(uuid: Seq<char>, scan: bool) -> Seq<char> {
    LOGIN_URL@ + uuid + (if scan {
        "&tip=1"@
    } else {
        "&tip=0"@
    })
}

/// The login page that a confirmed login redirects to.
pub open spec fn login_page_url(redirect: Seq<char>) -> Seq<char> {
    redirect + "&fun=new"@
}

/// The address that starts the session.
pub open spec fn init_url(pass_ticket: Seq<char>, skey: Seq<char>) -> Seq<char> {
    INIT_URL@ + pass_ticket + "&skey="@ + skey
}

/// The JSON request that starts the session; the device id is left empty.
pub open spec fn init_body(uin: Seq<char>, sid: Seq<char>, skey: Seq<char>) -> Seq<char> {
    "{ \"BaseRequest\": { \"Uin\": \""@ + uin + "\", \"Sid\": \""@ + sid + "\", \"Skey\": \""@
        + skey + "\", \"DeviceID\": \"\" } }"@
}

/// The address of the QR code for `uuid`.
pub fn qr_code_url_of(uuid: &str) -> (res: String)
    ensures
        res@ == qr_code_url(uuid@),
{
    join(QR_CODE_URL, uuid)
}

/// The address that reports the progress of login `uuid`.
pub fn poll_url_of(uuid: &str, scan: bool) -> (res: String)
    ensures
        res@ == poll_url(uuid@, scan),
{
    let head = join(LOGIN_URL, uuid);
    if scan {
        join(head.as_str(), "&tip=1")
    } else {
        join(head.as_str(), "&tip=0")
    }
}

/// The login page that a confirmed login redirects to.
pub fn login_page_url_of(redirect: &str) -> (res: String)
    ensures
        res@ == login_page_url(redirect@),
{
    join(redirect, "&fun=new")
}

/// The address that starts the session.
pub fn init_url_of(pass_ticket: &str, skey: &str) -> (res: String)
    ensures
        res@ == init_url(pass_ticket@, skey@),
{
    let a = join(INIT_URL, pass_ticket);
    let b = join(a.as_str(), "&skey=");
    join(b.as_str(), skey)
}

/// The JSON request that starts the session.
pub fn init_body_of(uin: &str, sid: &str, skey: &str) -> (res: String)
    ensures
        res@ == init_body(uin@, sid@, skey@),
{
    let a = join("{ \"BaseRequest\": { \"Uin\": \"", uin);
    let b = join(a.as_str(), "\", \"Sid\": \"");
    let c = join(b.as_str(), sid);
    let d = join(c.as_str(), "\", \"Skey\": \"");
    let e = join(d.as_str(), skey);
    join(e.as_str(), "\", \"DeviceID\": \"\" } }")
}

/// The uuid that the first page hands out, as `UUID_PATTERN` finds it.
pub fn parse_uuid(page: &str) -> (res: Option<String>)
    ensures
        text_of(res) == regex_group1(page@, UUID_PATTERN@),
{
    regex_cap(page, UUID_PATTERN)
}

/// The address that a confirmed login redirects to.
pub fn parse_redirect_uri(page: &str) -> (res: Option<String>)
    ensures
        text_of(res) == regex_group1(page@, REDIRECT_PATTERN@),
{
    regex_cap(page, REDIRECT_PATTERN)
}

} // verus!

verus! {

/// Why a login stopped where the protocol could not go on.
#[derive(Clone, Copy, Debug, PartialEq, Eq, Structural)]
pub enum LoginError {
    /// The first page handed out no uuid.
    NoUuid,
    /// The confirmed login named no address to go on to.
    NoRedirect,
    /// The login page held no `skey`.
    MissingSkey,
    /// The login page held no `wxsid`.
    MissingSid,
    /// The login page held no `wxuin`.
    MissingUin,
    /// The login page held no `pass_ticket`.
    MissingPassTicket,
    /// The session's first reply was not JSON.
    InitNotJson,
}

/// The keys that the login page hands out.
#[derive(Debug, PartialEq, Eq)]
pub struct LoginTicket {
    pub skey: String,
    pub sid: String,
    pub uin: String,
    pub pass_ticket: String,
}

/// The keys of a ticket: skey, sid, uin and pass ticket.
pub open spec fn ticket_view(t: LoginTicket) -> (Seq<char>, Seq<char>, Seq<char>, Seq<char>) {
    (t.skey@, t.sid@, t.uin@, t.pass_ticket@)
}

/// What the login page yields: its four keys, looked for in this order; the
/// first one missing is the error.
pub open spec fn ticket_of(page: Seq<char>) -> Result<
    (Seq<char>, Seq<char>, Seq<char>, Seq<char>),
    LoginError,
> {
    let skey = regex_group1(page, SKEY_PATTERN@);
    let sid = regex_group1(page, SID_PATTERN@);
    let uin = regex_group1(page, UIN_PATTERN@);
    let pass = regex_group1(page, PASS_TICKET_PATTERN@);
    if skey is None {
        Err(LoginError::MissingSkey)
    } else if sid is None {
        Err(LoginError::MissingSid)
    } else if uin is None {
        Err(LoginError::MissingUin)
    } else if pass is None {
        Err(LoginError::MissingPassTicket)
    } else {
        Ok((skey->0, sid->0, uin->0, pass->0))
    }
}

/// The view of a parsed ticket.
pub open spec fn ticket_result_view(r: Result<LoginTicket, LoginError>) -> Result<
    (Seq<char>, Seq<char>, Seq<char>, Seq<char>),
    LoginError,
> {
    match r {
        Ok(t) => Ok(ticket_view(t)),
        Err(e) => Err(e),
    }
}

/// Reads the session's keys from the login page.
pub fn parse_login_ticket(page: &str) -> (res: Result<LoginTicket, LoginError>)
    ensures
        ticket_result_view(res) == ticket_of(page@),
        res matches Ok(t) ==> {
            &&& regex_group1(page@, SKEY_PATTERN@) == Some(t.skey@)
            &&& regex_group1(page@, SID_PATTERN@) == Some(t.sid@)
            &&& regex_group1(page@, UIN_PATTERN@) == Some(t.uin@)
            &&& regex_group1(page@, PASS_TICKET_PATTERN@) == Some(t.pass_ticket@)
        },
        res is Ok <==> {
            &&& regex_group1(page@, SKEY_PATTERN@) is Some
            &&& regex_group1(page@, SID_PATTERN@) is Some
            &&& regex_group1(page@, UIN_PATTERN@) is Some
            &&& regex_group1(page@, PASS_TICKET_PATTERN@) is Some
        },
{
    let skey = match regex_cap(page, SKEY_PATTERN) {
        Some(s) => s,
        None => return Err(LoginError::MissingSkey),
    };
    let sid = match regex_cap(page, SID_PATTERN) {
        Some(s) => s,
        None => return Err(LoginError::MissingSid),
    };
    let uin = match regex_cap(page, UIN_PATTERN) {
        Some(s) => s,
        None => return Err(LoginError::MissingUin),
    };
    let pass_ticket = match regex_cap(page, PASS_TICKET_PATTERN) {
        Some(s) => s,
        None => return Err(LoginError::MissingPassTicket),
    };
    Ok(LoginTicket { skey, sid, uin, pass_ticket })
}

/// Where a login stands.
#[derive(Debug, PartialEq, Eq)]
pub enum LoginState {
    /// Not started.
    Idle,
    /// The page with the uuid was asked for.
    AwaitingUuid,
    /// The QR code of `uuid` is being saved.
    SavingQrCode { uuid: String },
    /// The QR code is shown; waiting for it to be scanned.
    AwaitingScan { uuid: String },
    /// Scanned; waiting for the login to be confirmed.
    AwaitingConfirm { uuid: String },
    /// The login page was asked for.
    AwaitingLoginPage,
    /// The session's first request was sent.
    AwaitingInit,
    /// Logged in.
    LoggedIn,
    /// Stopped.
    Failed(LoginError),
}

/// What the login asks the program around it to do next.
#[derive(Debug, PartialEq, Eq)]
pub enum LoginAction {
    /// GET `url` without the session's headers; hand back the body as a page.
    Fetch { url: String },
    /// GET `url` and write the body to the file `path`; then report it saved.
    SaveQrCode { url: String, path: String },
    /// Show the image in file `path` to the user, and GET `url` with the
    /// session's headers; hand back the body as a page.
    ShowQrCode { path: String, url: String },
    /// GET `url` with the session's headers; hand back the body as a page.
    Poll { url: String },
    /// GET `url` without the session's headers; hand back the body and the
    /// `Set-Cookie` values.
    OpenLoginPage { url: String },
    /// POST `body` to `url` with the session's headers; hand back the reply.
    Post { url: String, body: String },
    /// The login is done.
    Finish,
    /// The login cannot go on.
    Abort(LoginError),
    /// The event was not one that the login waits for; nothing to do.
    Ignore,
}

/// What the program around the login reports back.
#[derive(Debug, PartialEq, Eq)]
pub enum LoginEvent {
    /// Begin the login.
    Start,
    /// The body of a page that was asked for.
    Page(String),
    /// The QR code was saved.
    QrCodeSaved,
    /// The login page: its body and its `Set-Cookie` values.
    LoginPage { body: String, cookies: Vec<String> },
}

/// The step after the first page: save the QR code of the uuid it handed
/// out, or stop where it handed out none.
pub open spec fn uuid_outcome(uuid: Option<Seq<char>>, post: LoginState, act: LoginAction) -> bool {
    match uuid {
        Some(u) => {
            &&& post matches LoginState::SavingQrCode { uuid } && uuid@ == u
            &&& act matches LoginAction::SaveQrCode { url, path } && url@ == qr_code_url(u)
                && path@ == QR_FILE@
        },
        None => {
            &&& post == LoginState::Failed(LoginError::NoUuid)
            &&& act == LoginAction::Abort(LoginError::NoUuid)
        },
    }
}

/// The step after the confirmation: open the login page that it redirects
/// to, or stop where it names none.
pub open spec fn redirect_outcome(
    redirect: Option<Seq<char>>,
    post: LoginState,
    act: LoginAction,
) -> bool {
    match redirect {
        Some(r) => {
            &&& post == LoginState::AwaitingLoginPage
            &&& act matches LoginAction::OpenLoginPage { url } && url@ == login_page_url(r)
        },
        None => {
            &&& post == LoginState::Failed(LoginError::NoRedirect)
            &&& act == LoginAction::Abort(LoginError::NoRedirect)
        },
    }
}

/// The step after the login page: keep its cookies and start the session
/// with its keys, or stop, keeping nothing, where a key is missing.
pub open spec fn login_page_outcome(
    ticket: Result<(Seq<char>, Seq<char>, Seq<char>, Seq<char>), LoginError>,
    cookies: Seq<String>,
    post: LoginState,
    act: LoginAction,
    before: WeChat,
    after: WeChat,
) -> bool {
    match ticket {
        Ok((skey, sid, uin, pass_ticket)) => {
            &&& post == LoginState::AwaitingInit
            &&& act matches LoginAction::Post { url, body } && url@ == init_url(pass_ticket, skey)
                && body@ == init_body(uin, sid, skey)
            &&& after.wf()
            &&& after.cookies() == before.cookies() + cookies.map_values(|c: String| cookie_pair(c@))
            &&& after.header_lines().remove(crate::session::header_key("Cookie"@))
                == before.header_lines().remove(crate::session::header_key("Cookie"@))
            &&& after.ids() == before.ids()
        },
        Err(e) => {
            &&& post == LoginState::Failed(e)
            &&& act == LoginAction::Abort(e)
            &&& after == before
        },
    }
}

/// The step after the session's first reply: logged in where it is JSON.
pub open spec fn init_outcome(is_json: bool, post: LoginState, act: LoginAction) -> bool {
    if is_json {
        post == LoginState::LoggedIn && act == LoginAction::Finish
    } else {
        &&& post == LoginState::Failed(LoginError::InitNotJson)
        &&& act == LoginAction::Abort(LoginError::InitNotJson)
    }
}

/// One step of the login: from `pre`, on `event`, to `post` with `act`,
/// the session going from `before` to `after`. An event that `pre` does not
/// wait for changes nothing.
pub open spec fn login_step(
    pre: LoginState,
    event: LoginEvent,
    post: LoginState,
    act: LoginAction,
    before: WeChat,
    after: WeChat,
) -> bool {
    match (pre, event) {
        (LoginState::Idle, LoginEvent::Start) => {
            &&& post == LoginState::AwaitingUuid
            &&& act matches LoginAction::Fetch { url } && url@ == UUID_URL@
            &&& after == before
        },
        (LoginState::AwaitingUuid, LoginEvent::Page(page)) => {
            &&& uuid_outcome(regex_group1(page@, UUID_PATTERN@), post, act)
            &&& after == before
        },
        (LoginState::SavingQrCode { uuid }, LoginEvent::QrCodeSaved) => {
            &&& post matches LoginState::AwaitingScan { uuid: next } && next@ == uuid@
            &&& act matches LoginAction::ShowQrCode { path, url } && path@ == QR_FILE@
                && url@ == poll_url(uuid@, true)
            &&& after == before
        },
        (LoginState::AwaitingScan { uuid }, LoginEvent::Page(_)) => {
            &&& post matches LoginState::AwaitingConfirm { uuid: next } && next@ == uuid@
            &&& act matches LoginAction::Poll { url } && url@ == poll_url(uuid@, false)
            &&& after == before
        },
        (LoginState::AwaitingConfirm { .. }, LoginEvent::Page(page)) => {
            &&& redirect_outcome(regex_group1(page@, REDIRECT_PATTERN@), post, act)
            &&& after == before
        },
        (LoginState::AwaitingLoginPage, LoginEvent::LoginPage { body, cookies }) => {
            login_page_outcome(ticket_of(body@), cookies@, post, act, before, after)
        },
        (LoginState::AwaitingInit, LoginEvent::Page(page)) => {
            &&& init_outcome(json_parses(page@), post, act)
            &&& after == before
        },
        _ => {
            &&& post == pre
            &&& act == LoginAction::Ignore
            &&& after == before
        },
    }
}

/// The step after the first page, given the uuid found in it.
pub fn on_uuid(uuid: Option<String>) -> (res: (LoginState, LoginAction))
    ensures
        uuid_outcome(text_of(uuid), res.0, res.1),
{
    match uuid {
        Some(uuid) => {
            let url = qr_code_url_of(uuid.as_str());
            (LoginState::SavingQrCode { uuid }, LoginAction::SaveQrCode { url, path: QR_FILE.to_owned() })
        },
        None => (LoginState::Failed(LoginError::NoUuid), LoginAction::Abort(LoginError::NoUuid)),
    }
}

/// The step after the confirmation, given the address found in it.
pub fn on_redirect(redirect: Option<String>) -> (res: (LoginState, LoginAction))
    ensures
        redirect_outcome(text_of(redirect), res.0, res.1),
{
    match redirect {
        Some(r) => (LoginState::AwaitingLoginPage, LoginAction::OpenLoginPage { url: login_page_url_of(r.as_str()) }),
        None => (LoginState::Failed(LoginError::NoRedirect), LoginAction::Abort(LoginError::NoRedirect)),
    }
}

/// The step after the login page, given the keys found in it and its
/// `Set-Cookie` values.
pub fn on_login_page(
    ticket: Result<LoginTicket, LoginError>,
    cookies: &Vec<String>,
    session: &mut WeChat,
) -> (res: (LoginState, LoginAction))
    requires
        old(session).wf(),
    ensures
        login_page_outcome(ticket_result_view(ticket), cookies@, res.0, res.1, *old(session), *final(session)),
{
    match ticket {
        Ok(t) => {
            session.set_cookies(cookies);
            let url = init_url_of(t.pass_ticket.as_str(), t.skey.as_str());
            let body = init_body_of(t.uin.as_str(), t.sid.as_str(), t.skey.as_str());
            (LoginState::AwaitingInit, LoginAction::Post { url, body })
        },
        Err(e) => (LoginState::Failed(e), LoginAction::Abort(e)),
    }
}

/// The step after the session's first reply, given whether it is JSON.
pub fn on_init_reply(is_json: bool) -> (res: (LoginState, LoginAction))
    ensures
        init_outcome(is_json, res.0, res.1),
{
    if is_json {
        (LoginState::LoggedIn, LoginAction::Finish)
    } else {
        (LoginState::Failed(LoginError::InitNotJson), LoginAction::Abort(LoginError::InitNotJson))
    }
}

impl LoginState {
    /// A login that has not started.
    pub fn new() -> (res: LoginState)
        ensures
            res == LoginState::Idle,
    {
        LoginState::Idle
    }

    /// Takes the login one step on `event`, updating the session where the
    /// login page hands out cookies.
    pub fn step(self, session: &mut WeChat, event: LoginEvent) -> (res: (LoginState, LoginAction))
        requires
            old(session).wf(),
        ensures
            login_step(self, event, res.0, res.1, *old(session), *final(session)),
            final(session).wf(),
    {
        match (self, event) {
            (LoginState::Idle, LoginEvent::Start) => {
                (LoginState::AwaitingUuid, LoginAction::Fetch { url: UUID_URL.to_owned() })
            },
            (LoginState::AwaitingUuid, LoginEvent::Page(page)) => on_uuid(parse_uuid(page.as_str())),
            (LoginState::SavingQrCode { uuid }, LoginEvent::QrCodeSaved) => {
                let url = poll_url_of(uuid.as_str(), true);
                (LoginState::AwaitingScan { uuid }, LoginAction::ShowQrCode { path: QR_FILE.to_owned(), url })
            },
            (LoginState::AwaitingScan { uuid }, LoginEvent::Page(_)) => {
                let url = poll_url_of(uuid.as_str(), false);
                (LoginState::AwaitingConfirm { uuid }, LoginAction::Poll { url })
            },
            (LoginState::AwaitingConfirm { .. }, LoginEvent::Page(page)) => {
                on_redirect(parse_redirect_uri(page.as_str()))
            },
            (LoginState::AwaitingLoginPage, LoginEvent::LoginPage { body, cookies }) => {
                on_login_page(parse_login_ticket(body.as_str()), &cookies, session)
            },
            (LoginState::AwaitingInit, LoginEvent::Page(page)) => {
                on_init_reply(parses_as_json(page.as_str()))
            },
            (state, _) => (state, LoginAction::Ignore),
        }
    }
}

/// A login that is over, logged in or failed, stays as it is: every event
/// is ignored and the session does not change.
pub proof fn lemma_login_over_is_final(
    pre: LoginState,
    event: LoginEvent,
    post: LoginState,
    act: LoginAction,
    before: WeChat,
    after: WeChat,
)
    requires
        pre is LoggedIn || pre is Failed,
        login_step(pre, event, post, act, before, after),
    ensures
        post == pre,
        act == LoginAction::Ignore,
        after == before,
{
}

/// The session changes only when the login page arrives, and only in its
/// cookies.
pub proof fn lemma_session_changes_only_at_login_page(
    pre: LoginState,
    event: LoginEvent,
    post: LoginState,
    act: LoginAction,
    before: WeChat,
    after: WeChat,
)
    requires
        login_step(pre, event, post, act, before, after),
    ensures
        !(pre is AwaitingLoginPage && event is LoginPage) ==> after == before,
        after.header_lines().remove(crate::session::header_key("Cookie"@))
            == before.header_lines().remove(crate::session::header_key("Cookie"@)),
        after.ids() == before.ids(),
{
}

/// A login stops only together with an abort that names the same error,
/// and it is logged in only together with the finish.
pub proof fn lemma_outcome_matches_action(
    pre: LoginState,
    event: LoginEvent,
    post: LoginState,
    act: LoginAction,
    before: WeChat,
    after: WeChat,
)
    requires
        !(pre is LoggedIn || pre is Failed),
        login_step(pre, event, post, act, before, after),
    ensures
        post matches LoginState::Failed(e) ==> act == LoginAction::Abort(e),
        post is LoggedIn ==> act is Finish,
        act is Ignore ==> post == pre && after == before,
{
}

/// The keys of a login ticket are exactly what the patterns capture in the
/// page, whole; there is a ticket exactly when all four patterns capture.
pub proof fn lemma_ticket_keys_are_captures(page: Seq<char>)
    ensures
        ticket_of(page) is Ok <==> {
            &&& regex_group1(page, SKEY_PATTERN@) is Some
            &&& regex_group1(page, SID_PATTERN@) is Some
            &&& regex_group1(page, UIN_PATTERN@) is Some
            &&& regex_group1(page, PASS_TICKET_PATTERN@) is Some
        },
        ticket_of(page) matches Ok((skey, sid, uin, pass_ticket)) ==> {
            &&& regex_group1(page, SKEY_PATTERN@) == Some(skey)
            &&& regex_group1(page, SID_PATTERN@) == Some(sid)
            &&& regex_group1(page, UIN_PATTERN@) == Some(uin)
            &&& regex_group1(page, PASS_TICKET_PATTERN@) == Some(pass_ticket)
        },
{
}

/// The session's first request carries uin, sid and skey whole, each at its
/// place in the fixed text: 27 characters before the uin, 11 between uin and
/// sid, 12 between sid and skey, and 21 after the skey.
pub proof fn lemma_init_body_carries_keys(uin: Seq<char>, sid: Seq<char>, skey: Seq<char>)
    ensures
        init_body(uin, sid, skey).len() == (uin.len() as int) + (sid.len() as int) + (skey.len() as int) + 71,
        init_body(uin, sid, skey).subrange(27, 27 + (uin.len() as int)) == uin,
        init_body(uin, sid, skey).subrange(38 + (uin.len() as int), 38 + (uin.len() as int) + (sid.len() as int)) == sid,
        init_body(uin, sid, skey).subrange(
            50 + (uin.len() as int) + (sid.len() as int),
            50 + (uin.len() as int) + (sid.len() as int) + (skey.len() as int),
        ) == skey,
        init_body(uin, sid, skey).subrange(27 + (uin.len() as int), 38 + (uin.len() as int)) == "\", \"Sid\": \""@,
        init_body(uin, sid, skey).subrange(38 + (uin.len() as int) + (sid.len() as int), 50 + (uin.len() as int) + (sid.len() as int))
            == "\", \"Skey\": \""@,
{
    reveal_strlit("{ \"BaseRequest\": { \"Uin\": \"");
    reveal_strlit("\", \"Sid\": \"");
    reveal_strlit("\", \"Skey\": \"");
    reveal_strlit("\", \"DeviceID\": \"\" } }");
    let b = init_body(uin, sid, skey);
    let p1 = "{ \"BaseRequest\": { \"Uin\": \""@;
    let p2 = "\", \"Sid\": \""@;
    let p3 = "\", \"Skey\": \""@;
    let p4 = "\", \"DeviceID\": \"\" } }"@;
    assert(b == p1 + uin + p2 + sid + p3 + skey + p4);
    assert(b.subrange(27, 27 + (uin.len() as int)) =~= uin);
    assert(b.subrange(27 + (uin.len() as int), 38 + (uin.len() as int)) =~= p2);
    assert(b.subrange(38 + (uin.len() as int), 38 + (uin.len() as int) + (sid.len() as int)) =~= sid);
    assert(b.subrange(38 + (uin.len() as int) + (sid.len() as int), 50 + (uin.len() as int) + (sid.len() as int)) =~= p3);
    assert(b.subrange(50 + (uin.len() as int) + (sid.len() as int), 50 + (uin.len() as int) + (sid.len() as int) + (skey.len() as int)) =~= skey);
}

/// The address that starts the session carries the pass ticket and the skey
/// whole: the pass ticket right after the 76 characters of `INIT_URL`, then
/// `&skey=`, then the skey to the end.
pub proof fn lemma_init_url_carries_keys(pass_ticket: Seq<char>, skey: Seq<char>)
    ensures
        init_url(pass_ticket, skey).len() == (pass_ticket.len() as int) + (skey.len() as int) + 82,
        init_url(pass_ticket, skey).subrange(0, 76) == INIT_URL@,
        init_url(pass_ticket, skey).subrange(76, 76 + (pass_ticket.len() as int)) == pass_ticket,
        init_url(pass_ticket, skey).subrange(76 + (pass_ticket.len() as int), 82 + (pass_ticket.len() as int))
            == "&skey="@,
        init_url(pass_ticket, skey).subrange(
            82 + (pass_ticket.len() as int),
            82 + (pass_ticket.len() as int) + (skey.len() as int),
        ) == skey,
{
    reveal_strlit("https://web.wechat.com/cgi-bin/mmwebwx-bin/webwxinit?lang=zh_CN&pass_ticket=");
    reveal_strlit("&skey=");
    let u = init_url(pass_ticket, skey);
    assert(INIT_URL@.len() == 76);
    assert(u.subrange(0, 76) =~= INIT_URL@);
    assert(u.subrange(76, 76 + (pass_ticket.len() as int)) =~= pass_ticket);
    assert(u.subrange(76 + (pass_ticket.len() as int), 82 + (pass_ticket.len() as int)) =~= "&skey="@);
    assert(u.subrange(82 + (pass_ticket.len() as int), 82 + (pass_ticket.len() as int) + (skey.len() as int)) =~= skey);
}

/// The QR code's address is `QR_CODE_URL` (35 characters) followed by the
/// whole uuid; the progress address is `LOGIN_URL` (59 characters), the
/// whole uuid, and `&tip=1` while waiting for the scan or `&tip=0` after it;
/// the login page's address is the whole redirect followed by `&fun=new`.
pub proof fn lemma_login_addresses_carry_parts(uuid: Seq<char>, redirect: Seq<char>)
    ensures
        qr_code_url(uuid).len() == 35 + (uuid.len() as int),
        qr_code_url(uuid).subrange(0, 35) == QR_CODE_URL@,
        qr_code_url(uuid).subrange(35, 35 + (uuid.len() as int)) == uuid,
        poll_url(uuid, true).len() == 65 + (uuid.len() as int),
        poll_url(uuid, true).subrange(0, 59) == LOGIN_URL@,
        poll_url(uuid, true).subrange(59, 59 + (uuid.len() as int)) == uuid,
        poll_url(uuid, true).subrange(59 + (uuid.len() as int), 65 + (uuid.len() as int)) == "&tip=1"@,
        poll_url(uuid, false).len() == 65 + (uuid.len() as int),
        poll_url(uuid, false).subrange(59, 59 + (uuid.len() as int)) == uuid,
        poll_url(uuid, false).subrange(59 + (uuid.len() as int), 65 + (uuid.len() as int)) == "&tip=0"@,
        login_page_url(redirect).len() == (redirect.len() as int) + 8,
        login_page_url(redirect).subrange(0, (redirect.len() as int)) == redirect,
        login_page_url(redirect).subrange((redirect.len() as int), (redirect.len() as int) + 8) == "&fun=new"@,
{
    reveal_strlit("https://login.weixin.qq.com/qrcode/");
    reveal_strlit("https://login.weixin.qq.com/cgi-bin/mmwebwx-bin/login?uuid=");
    reveal_strlit("&tip=1");
    reveal_strlit("&tip=0");
    reveal_strlit("&fun=new");
    assert(QR_CODE_URL@.len() == 35);
    assert(LOGIN_URL@.len() == 59);
    let q = qr_code_url(uuid);
    assert(q.subrange(0, 35) =~= QR_CODE_URL@);
    assert(q.subrange(35, 35 + (uuid.len() as int)) =~= uuid);
    let p = poll_url(uuid, true);
    assert(p.subrange(0, 59) =~= LOGIN_URL@);
    assert(p.subrange(59, 59 + (uuid.len() as int)) =~= uuid);
    assert(p.subrange(59 + (uuid.len() as int), 65 + (uuid.len() as int)) =~= "&tip=1"@);
    let p0 = poll_url(uuid, false);
    assert(p0.subrange(59, 59 + (uuid.len() as int)) =~= uuid);
    assert(p0.subrange(59 + (uuid.len() as int), 65 + (uuid.len() as int)) =~= "&tip=0"@);
    let l = login_page_url(redirect);
    assert(l.subrange(0, (redirect.len() as int)) =~= redirect);
    assert(l.subrange((redirect.len() as int), (redirect.len() as int) + 8) =~= "&fun=new"@);
}

/// The login follows the web protocol in this order, each request built
/// from what the answers before it held, whole: the uuid page (no session
/// headers), the QR code of the uuid saved to `QR_FILE`, the image shown
/// while asking whether the code was scanned (`tip=1`), then whether the
/// login was confirmed (`tip=0`), the login page that the confirmation
/// redirects to, and the session's first request with the keys of the login
/// page, after which a JSON reply logs in. Where an answer lacks what the
/// next request needs, the login stops right there with that error and
/// stays stopped; the session takes the login page's cookies only when the
/// login page holds all four keys.
pub proof fn lemma_login_protocol(
    uuid_page: String,
    scan_page: String,
    confirm_page: String,
    login_body: String,
    cookies: Vec<String>,
    init_page: String,
    s1: LoginState, s2: LoginState, s3: LoginState, s4: LoginState,
    s5: LoginState, s6: LoginState, s7: LoginState,
    a1: LoginAction, a2: LoginAction, a3: LoginAction, a4: LoginAction,
    a5: LoginAction, a6: LoginAction, a7: LoginAction,
    w0: WeChat, w1: WeChat, w2: WeChat, w3: WeChat, w4: WeChat, w5: WeChat, w6: WeChat, w7: WeChat,
)
    requires
        login_step(LoginState::Idle, LoginEvent::Start, s1, a1, w0, w1),
        login_step(s1, LoginEvent::Page(uuid_page), s2, a2, w1, w2),
        login_step(s2, LoginEvent::QrCodeSaved, s3, a3, w2, w3),
        login_step(s3, LoginEvent::Page(scan_page), s4, a4, w3, w4),
        login_step(s4, LoginEvent::Page(confirm_page), s5, a5, w4, w5),
        login_step(s5, LoginEvent::LoginPage { body: login_body, cookies }, s6, a6, w5, w6),
        login_step(s6, LoginEvent::Page(init_page), s7, a7, w6, w7),
    ensures
        a1 matches LoginAction::Fetch { url } && url@ == UUID_URL@,
        regex_group1(uuid_page@, UUID_PATTERN@) is None ==> {
            &&& s2 == LoginState::Failed(LoginError::NoUuid)
            &&& a2 == LoginAction::Abort(LoginError::NoUuid)
            &&& s7 == s2 && w7 == w0
        },
        regex_group1(uuid_page@, UUID_PATTERN@) matches Some(u) ==> {
            &&& a2 matches LoginAction::SaveQrCode { url, path } && url@ == QR_CODE_URL@ + u
                && path@ == QR_FILE@
            &&& a3 matches LoginAction::ShowQrCode { path, url } && path@ == QR_FILE@
                && url@ == LOGIN_URL@ + u + "&tip=1"@
            &&& a4 matches LoginAction::Poll { url } && url@ == LOGIN_URL@ + u + "&tip=0"@
            &&& w4 == w0
        },
        regex_group1(uuid_page@, UUID_PATTERN@) is Some && regex_group1(
            confirm_page@,
            REDIRECT_PATTERN@,
        ) is None ==> {
            &&& s5 == LoginState::Failed(LoginError::NoRedirect)
            &&& a5 == LoginAction::Abort(LoginError::NoRedirect)
            &&& s7 == s5 && w7 == w0
        },
        regex_group1(confirm_page@, REDIRECT_PATTERN@) matches Some(r) ==> (regex_group1(
            uuid_page@,
            UUID_PATTERN@,
        ) is Some ==> {
            &&& a5 matches LoginAction::OpenLoginPage { url } && url@ == r + "&fun=new"@
            &&& (ticket_of(login_body@) matches Err(e) ==> {
                &&& s6 == LoginState::Failed(e)
                &&& a6 == LoginAction::Abort(e)
                &&& s7 == s6 && w7 == w0
            })
            &&& (ticket_of(login_body@) matches Ok((skey, sid, uin, pass_ticket)) ==> {
                &&& a6 matches LoginAction::Post { url, body } && url@ == INIT_URL@ + pass_ticket
                    + "&skey="@ + skey && body@ == "{ \"BaseRequest\": { \"Uin\": \""@ + uin
                    + "\", \"Sid\": \""@ + sid + "\", \"Skey\": \""@ + skey
                    + "\", \"DeviceID\": \"\" } }"@
                &&& w6.cookies() == w0.cookies() + cookies@.map_values(|c: String| cookie_pair(c@))
                &&& w7 == w6
                &&& (json_parses(init_page@) ==> s7 == LoginState::LoggedIn && a7
                    == LoginAction::Finish)
                &&& (!json_parses(init_page@) ==> s7 == LoginState::Failed(LoginError::InitNotJson)
                    && a7 == LoginAction::Abort(LoginError::InitNotJson))
            })
        }),
{
}

} // verus!
