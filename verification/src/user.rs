use vstd::prelude::*;
use core::cmp::Ordering;
use vstd::std_specs::cmp::{PartialEqSpec, PartialOrdSpec};
use crate::json::JsonStrings;
use crate::text::{
    c_compatible, compare_text, lemma_text_less_irreflexive, lemma_text_less_total,
    lemma_text_less_transitive, lemma_text_order_lexicographic, text_order,
};

verus! {

/// A contact: the user's unique name and the name shown for it.
#[derive(Clone, Debug)]
pub struct User {
    user_name: String,
    nick_name: String,
}

impl User {
    /// The unique name, by which users are told apart and ordered.
    pub closed spec fn user_name_view(&self) -> Seq<char> {
        self.user_name@
    }

    /// The name shown for the user.
    pub closed spec fn nick_name_view(&self) -> Seq<char> {
        self.nick_name@
    }

    /// Reads a contact from the members `UserName` and `NickName` of a JSON
    /// object, which must both be strings.
    pub fn from_json(json: &JsonStrings) -> (res: User)
        requires
            json.wf(),
            json.lookup("UserName"@) is Some,
            json.lookup("NickName"@) is Some,
        ensures
            Some(res.user_name_view()) == json.lookup("UserName"@),
            Some(res.nick_name_view()) == json.lookup("NickName"@),
    {
        let user_name = json.get_str("UserName");
        let nick_name = json.get_str("NickName");
        match (user_name, nick_name) {
            (Some(user_name), Some(nick_name)) => User { user_name, nick_name },
            _ => {
                proof {
                    assert(false);
                }
                User { user_name: String::new(), nick_name: String::new() }
            },
        }
    }

    /// The unique name.
    pub fn user_name(&self) -> (res: String)
        ensures
            res@ == self.user_name_view(),
    {
        self.user_name.clone()
    }

    /// The name shown for the user.
    pub fn nick_name(&self) -> (res: String)
        ensures
            res@ == self.nick_name_view(),
    {
        self.nick_name.clone()
    }

    /// The text of the unique name for a C string; it must hold no NUL.
    pub fn user_name_str(&self) -> (res: String)
        requires
            c_compatible(self.user_name_view()),
        ensures
            res@ == self.user_name_view(),
    {
        self.user_name.clone()
    }

    /// The text of the shown name for a C string; it must hold no NUL.
    pub fn nick_name_str(&self) -> (res: String)
        requires
            c_compatible(self.nick_name_view()),
        ensures
            res@ == self.nick_name_view(),
    {
        self.nick_name.clone()
    }
}

impl PartialEq for User {
    fn eq(&self, other: &User) -> (res: bool) {
        self.user_name == other.user_name
    }
}

impl vstd::std_specs::cmp::PartialEqSpecImpl for User {
    open spec fn obeys_eq_spec() -> bool {
        true
    }

    open spec fn eq_spec(&self, other: &User) -> bool {
        self.user_name_view() == other.user_name_view()
    }
}

impl Eq for User {}

impl PartialOrd for User {
    fn partial_cmp(&self, other: &User) -> (res: Option<Ordering>) {
        Some(compare_text(self.user_name.as_str(), other.user_name.as_str()))
    }
}

impl vstd::std_specs::cmp::PartialOrdSpecImpl for User {
    open spec fn obeys_partial_cmp_spec() -> bool {
        true
    }

    open spec fn partial_cmp_spec(&self, other: &User) -> Option<Ordering> {
        Some(text_order(self.user_name_view(), other.user_name_view()))
    }
}

/// Users compare equal exactly when they are in the order `Equal`, and
/// exactly when their unique names are the same: the shown name plays no part.
pub proof fn lemma_user_eq_matches_order(a: User, b: User)
    ensures
        a.eq_spec(&b) <==> a.partial_cmp_spec(&b) == Some(Ordering::Equal),
        a.eq_spec(&b) <==> a.user_name_view() == b.user_name_view(),
{
}

/// Users are totally ordered by their unique names: `a` before `b` exactly
/// when `b` is after `a`, and the order is transitive.
pub proof fn lemma_user_order_total(a: User, b: User, c: User)
    ensures
        a.partial_cmp_spec(&b) is Some,
        a.partial_cmp_spec(&b) == Some(Ordering::Less) <==> b.partial_cmp_spec(&a) == Some(
            Ordering::Greater,
        ),
        a.partial_cmp_spec(&b) == Some(Ordering::Less) && b.partial_cmp_spec(&c) == Some(
            Ordering::Less,
        ) ==> a.partial_cmp_spec(&c) == Some(Ordering::Less),
{
    lemma_text_less_total(a.user_name_view(), b.user_name_view());
    lemma_text_less_irreflexive(a.user_name_view());
    if a.partial_cmp_spec(&b) == Some(Ordering::Less) && b.partial_cmp_spec(&c) == Some(
        Ordering::Less,
    ) {
        lemma_text_less_transitive(a.user_name_view(), b.user_name_view(), c.user_name_view());
        lemma_text_less_total(a.user_name_view(), c.user_name_view());
        if a.user_name_view() == c.user_name_view() {
            lemma_text_less_total(a.user_name_view(), b.user_name_view());
        }
    }
}

/// Contacts are ordered as their unique names are under `String::cmp`:
/// where the names agree on their first `k` characters, the contact whose
/// next character has the smaller code point comes first, a name that ends
/// there comes before a longer one, and names that both end there are equal.
pub proof fn lemma_user_order_by_name(a: User, b: User, k: int)
    requires
        0 <= k <= a.user_name_view().len(),
        k <= b.user_name_view().len(),
        a.user_name_view().subrange(0, k) == b.user_name_view().subrange(0, k),
    ensures
        k < a.user_name_view().len() && k < b.user_name_view().len()
            && a.user_name_view()[k] < b.user_name_view()[k] ==> a.partial_cmp_spec(&b) == Some(
            Ordering::Less,
        ),
        k == a.user_name_view().len() && k < b.user_name_view().len() ==> a.partial_cmp_spec(&b)
            == Some(Ordering::Less),
        k == a.user_name_view().len() && k == b.user_name_view().len() ==> a.partial_cmp_spec(&b)
            == Some(Ordering::Equal) && a.eq_spec(&b),
{
    lemma_text_order_lexicographic(a.user_name_view(), b.user_name_view(), k);
}

} // verus!
