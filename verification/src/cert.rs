//! When a site's certificate is requested again, and for which domains.

use vstd::prelude::*;
use crate::text::{chars_of, split_chars, split_spec, string_of, vec_views};

verus! {

/// How many of the names are `x`.
pub open spec fn name_count(s: Seq<Seq<char>>, x: Seq<char>) -> nat
    decreases s.len(),
{
    if s.len() == 0 {
        0
    } else {
        name_count(s.drop_last(), x) + if s.last() == x { 1nat } else { 0nat }
    }
}

/// Two lists hold the same names, each as often: they are equal once sorted.
pub open spec fn same_names(a: Seq<Seq<char>>, b: Seq<Seq<char>>) -> bool {
    forall|x: Seq<char>| #[trigger] name_count(a, x) == name_count(b, x)
}

proof fn lemma_name_count_positive(s: Seq<Seq<char>>, x: Seq<char>)
    requires
        name_count(s, x) > 0,
    ensures
        exists|i: int| 0 <= i < s.len() && s[i] == x,
    decreases s.len(),
{
    if s.last() != x {
        lemma_name_count_positive(s.drop_last(), x);
        let i = choose|i: int| 0 <= i < s.drop_last().len() && s.drop_last()[i] == x;
        assert(s[i] == x);
    } else {
        assert(s[s.len() - 1] == x);
    }
}

fn count_name(v: &Vec<String>, x: &String) -> (r: usize)
    ensures
        r == name_count(v.deep_view(), x@),
{
    let mut n: usize = 0;
    let mut i: usize = 0;
    while i < v.len()
        invariant
            i <= v@.len(),
            n <= i,
            n == name_count(v.deep_view().take(i as int), x@),
        decreases v@.len() - i,
    {
        proof {
            assert(v.deep_view().take(i + 1).drop_last() =~= v.deep_view().take(i as int));
        }
        if v[i] == *x {
            n = n + 1;
        }
        i = i + 1;
    }
    assert(v.deep_view().take(v@.len() as int) =~= v.deep_view());
    n
}

/// Whether two lists of alternative names hold the same names, each as often.
pub fn alt_names_match(a: &Vec<String>, b: &Vec<String>) -> (r: bool)
    ensures
        r == same_names(a.deep_view(), b.deep_view()),
{
    let mut i: usize = 0;
    while i < a.len()
        invariant
            i <= a@.len(),
            forall|k: int| 0 <= k < i ==> name_count(a.deep_view(), #[trigger] a.deep_view()[k]) == name_count(b.deep_view(), a.deep_view()[k]),
        decreases a@.len() - i,
    {
        let ca = count_name(a, &a[i]);
        let cb = count_name(b, &a[i]);
        if ca != cb {
            assert(name_count(a.deep_view(), a.deep_view()[i as int]) != name_count(b.deep_view(), a.deep_view()[i as int]));
            return false;
        }
        i = i + 1;
    }
    let mut j: usize = 0;
    while j < b.len()
        invariant
            j <= b@.len(),
            forall|k: int| 0 <= k < a@.len() ==> name_count(a.deep_view(), #[trigger] a.deep_view()[k]) == name_count(b.deep_view(), a.deep_view()[k]),
            forall|k: int| 0 <= k < j ==> name_count(a.deep_view(), #[trigger] b.deep_view()[k]) == name_count(b.deep_view(), b.deep_view()[k]),
        decreases b@.len() - j,
    {
        let ca = count_name(a, &b[j]);
        let cb = count_name(b, &b[j]);
        if ca != cb {
            assert(name_count(a.deep_view(), b.deep_view()[j as int]) != name_count(b.deep_view(), b.deep_view()[j as int]));
            return false;
        }
        j = j + 1;
    }
    assert forall|x: Seq<char>| #[trigger] name_count(a.deep_view(), x) == name_count(b.deep_view(), x) by {
        if name_count(a.deep_view(), x) > 0 {
            lemma_name_count_positive(a.deep_view(), x);
        } else if name_count(b.deep_view(), x) > 0 {
            lemma_name_count_positive(b.deep_view(), x);
        }
    }
    true
}

/// Thirty days, in nanoseconds.
pub const THIRTY_DAYS_NANOS: i128 = 2592000000000000;

/// A certificate is requested again after a change of a site when the site
/// serves TLS with an ACME certificate and its alternative names changed,
/// it had no certificate, or its certificate began more than thirty days
/// ago. `now_nanos` is the time in Unix nanoseconds; `old_not_before` the
/// start of the old certificate in Unix seconds.
pub open spec fn renewal_due(
    tls_on: bool,
    acme_on: bool,
    old_alt_names: Seq<Seq<char>>,
    new_alt_names: Seq<Seq<char>>,
    old_not_before: Option<i64>,
    now_nanos: i128,
) -> bool {
    tls_on && acme_on && (!same_names(old_alt_names, new_alt_names) || match old_not_before {
        None => true,
        Some(b) => now_nanos - b * 1000000000 > THIRTY_DAYS_NANOS,
    })
}

/// Whether a changed site asks for a new certificate.
pub fn certificate_renewal_due(
    tls_on: bool,
    acme_on: bool,
    old_alt_names: &Vec<String>,
    new_alt_names: &Vec<String>,
    old_not_before: Option<i64>,
    now_nanos: i128,
) -> (r: bool)
    ensures
        r == renewal_due(tls_on, acme_on, old_alt_names.deep_view(), new_alt_names.deep_view(), old_not_before, now_nanos),
{
    let names_equal = alt_names_match(old_alt_names, new_alt_names);
    let stale = match old_not_before {
        None => true,
        Some(b) => {
            let start: i128 = (b as i128) * 1000000000i128;
            now_nanos > start + THIRTY_DAYS_NANOS
        }
    };
    tls_on && acme_on && (!names_equal || stale)
}

/// The domains of a certificate: the site's name, then its alternative names.
pub open spec fn certificate_domains_spec(name: Seq<char>, alt_names: Seq<Seq<char>>) -> Seq<Seq<char>> {
    seq![name] + alt_names
}

/// The domains for which a site's certificate is requested.
pub fn certificate_domains(name: &String, alt_names: &Vec<String>) -> (r: Vec<String>)
    ensures
        r.deep_view() == certificate_domains_spec(name@, alt_names.deep_view()),
{
    let mut r: Vec<String> = Vec::new();
    r.push(name.clone());
    let mut i: usize = 0;
    while i < alt_names.len()
        invariant
            i <= alt_names@.len(),
            r.deep_view() == seq![name@] + alt_names.deep_view().take(i as int),
        decreases alt_names@.len() - i,
    {
        let ghost before = r.deep_view();
        r.push(alt_names[i].clone());
        assert(r.deep_view() =~= before.push(alt_names.deep_view()[i as int]));
        assert(alt_names.deep_view().take(i + 1) =~= alt_names.deep_view().take(i as int).push(alt_names.deep_view()[i as int]));
        i = i + 1;
    }
    assert(alt_names.deep_view().take(alt_names@.len() as int) =~= alt_names.deep_view());
    r
}

/// The non-empty pieces of `s`, in order.
pub open spec fn non_empty(s: Seq<Seq<char>>) -> Seq<Seq<char>>
    decreases s.len(),
{
    if s.len() == 0 {
        Seq::empty()
    } else if s.last().len() == 0 {
        non_empty(s.drop_last())
    } else {
        non_empty(s.drop_last()).push(s.last())
    }
}

/// The domains renewed for a stored site: its name, then the non-empty
/// pieces between commas of its stored alternative names.
pub open spec fn renewal_domains_spec(name: Seq<char>, alt_names: Option<Seq<char>>) -> Seq<Seq<char>> {
    let text = match alt_names {
        Some(a) => a,
        None => Seq::empty(),
    };
    seq![name] + non_empty(split_spec(text, ','))
}

/// The domains whose certificate is renewed for a stored site.
pub fn renewal_domains(name: &String, alt_names: &Option<String>) -> (r: Vec<String>)
    ensures
        r.deep_view() == renewal_domains_spec(name@, match alt_names { Some(a) => Some(a@), None => None }),
{
    let cs = match alt_names {
        Some(a) => chars_of(a.as_str()),
        None => Vec::new(),
    };
    let ghost text = match alt_names { Some(a) => a@, None => Seq::<char>::empty() };
    assert(cs@ == text);
    let parts = split_chars(cs.as_slice(), ',');
    let ghost pv = vec_views(parts@);
    let mut r: Vec<String> = Vec::new();
    r.push(name.clone());
    let mut i: usize = 0;
    while i < parts.len()
        invariant
            i <= parts@.len(),
            pv == vec_views(parts@),
            r.deep_view() == seq![name@] + non_empty(pv.take(i as int)),
        decreases parts@.len() - i,
    {
        let ghost before = r.deep_view();
        assert(pv.take(i + 1).drop_last() =~= pv.take(i as int));
        assert(pv[i as int] == parts@[i as int]@);
        if parts[i].len() > 0 {
            r.push(string_of(parts[i].as_slice()));
            assert(r.deep_view() =~= before.push(parts@[i as int]@));
        }
        i = i + 1;
    }
    assert(pv.take(parts@.len() as int) =~= pv);
    r
}

} // verus!
