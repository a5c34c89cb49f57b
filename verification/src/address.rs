//! The format check that `verify` applies to an e-mail address.

use vstd::prelude::*;
use vstd::utf8::encode_utf8;
use crate::text::chars_of;

verus! {

/// The parts of an address that passed the format check.
#[derive(Debug, Clone)]
pub struct AddressParts {
    /// Text before the `@`.
    pub local: String,
    /// Text after the `@`.
    pub domain: String,
    /// The local part holds a `.`.
    pub local_has_dot: bool,
    /// Length in bytes (UTF-8) of the domain's last `.`-separated label, as `str::len` gives it.
    pub tld_len: usize,
}

/// `e` holds exactly one `@`, at least one character before it and a `.`
/// somewhere after it.
pub open spec fn format_valid(e: Seq<char>) -> bool {
    exists|p: int|
        0 < p < e.len() && #[trigger] e[p] == '@'
        && (forall|q: int| 0 <= q < e.len() && q != p ==> e[q] != '@')
        && e.subrange(p + 1, e.len() as int).contains('.')
}

/// `tld` is what follows the last `.` of `domain`.
pub open spec fn is_last_label(domain: Seq<char>, tld: Seq<char>) -> bool {
    exists|pre: Seq<char>| domain == pre + seq!['.'] + tld && !tld.contains('.')
}

/// What the check gives back for `e`: `None` exactly when the format is invalid;
/// otherwise `e` is the local part, `@` and the domain, and the remaining fields
/// describe those parts.
pub open spec fn check_outcome(e: Seq<char>, res: Option<AddressParts>) -> bool {
    match res {
        None => !format_valid(e),
        Some(p) => {
            &&& format_valid(e)
            &&& e == p.local@ + seq!['@'] + p.domain@
            &&& !p.local@.contains('@')
            &&& p.local_has_dot == p.local@.contains('.')
            &&& exists|tld: Seq<char>| is_last_label(p.domain@, tld) && p.tld_len == encode_utf8(tld).len() as usize
        },
    }
}

/// First position of `c` at or after `from`, or `v.len()` when there is none.
fn next_index(v: &Vec<char>, c: char, from: usize) -> (res: usize)
    requires
        from <= v@.len(),
    ensures
        from <= res <= v@.len(),
        res < v@.len() ==> v@[res as int] == c,
        forall|q: int| from <= q < res ==> v@[q] != c,
{
    let mut i = from;
    while i < v.len()
        invariant
            from <= i <= v@.len(),
            forall|q: int| from <= q < i ==> v@[q] != c,
        decreases v@.len() - i,
    {
        if v[i] == c {
            return i;
        }
        i = i + 1;
    }
    i
}

/// Last position of `c` in `v`, if any.
fn last_index(v: &Vec<char>, c: char) -> (res: Option<usize>)
    ensures
        match res {
            Some(i) => i < v@.len() && v@[i as int] == c && forall|q: int| i < q < v@.len() ==> v@[q] != c,
            None => !v@.contains(c),
        },
{
    let mut i = v.len();
    while i > 0
        invariant
            i <= v@.len(),
            forall|q: int| i <= q < v@.len() ==> v@[q] != c,
        decreases i,
    {
        if v[i - 1] == c {
            return Some(i - 1);
        }
        i = i - 1;
    }
    None
}

proof fn lemma_valid_at(e: Seq<char>, p: int)
    requires
        format_valid(e),
        0 <= p < e.len(),
        e[p] == '@',
    ensures
        p > 0,
        forall|q: int| 0 <= q < e.len() && q != p ==> e[q] != '@',
        e.subrange(p + 1, e.len() as int).contains('.'),
{
    let w = choose|w: int| 0 < w < e.len() && #[trigger] e[w] == '@'
        && (forall|q: int| 0 <= q < e.len() && q != w ==> e[q] != '@')
        && e.subrange(w + 1, e.len() as int).contains('.');
    assert(w == p);
}

proof fn lemma_valid_has_at(e: Seq<char>)
    requires
        format_valid(e),
    ensures
        exists|w: int| 0 <= w < e.len() && e[w] == '@',
{
    let w = choose|w: int| 0 < w < e.len() && #[trigger] e[w] == '@'
        && (forall|q: int| 0 <= q < e.len() && q != w ==> e[q] != '@')
        && e.subrange(w + 1, e.len() as int).contains('.');
    assert(e[w] == '@');
}

proof fn lemma_make_valid(e: Seq<char>, p: int, d: int)
    requires
        0 < p < e.len(),
        e[p] == '@',
        forall|q: int| 0 <= q < e.len() && q != p ==> e[q] != '@',
        p + 1 + d < e.len(),
        0 <= d,
        e[p + 1 + d] == '.',
    ensures
        format_valid(e),
{
    let sub = e.subrange(p + 1, e.len() as int);
    assert(sub[d] == '.');
    assert(sub.contains('.'));
}

proof fn lemma_last_label(domain: Seq<char>, d: int, tld: Seq<char>)
    requires
        0 <= d < domain.len(),
        domain[d] == '.',
        forall|q: int| d < q < domain.len() ==> domain[q] != '.',
        tld == domain.subrange(d + 1, domain.len() as int),
    ensures
        is_last_label(domain, tld),
{
    let pre = domain.subrange(0, d);
    assert(domain =~= pre + seq!['.'] + tld);
    assert(!tld.contains('.')) by {
        if tld.contains('.') {
            let k = choose|k: int| 0 <= k < tld.len() && tld[k] == '.';
            assert(domain[d + 1 + k] == '.');
        }
    }
}

/// Checks the address format as `verify` does: exactly one `@`, a non-empty
/// local part and a `.` in the domain; on success also reports whether the
/// local part has a dot and how long the last domain label is.
pub fn check_address_format(email: &str) -> (res: Option<AddressParts>)
    ensures
        check_outcome(email@, res),
{
    let v = chars_of(email);
    let n = v.len();
    let p = next_index(&v, '@', 0);
    if p == n {
        proof {
            if format_valid(email@) {
                lemma_valid_has_at(email@);
            }
        }
        return None;
    }
    if p == 0 {
        proof {
            if format_valid(email@) {
                lemma_valid_at(email@, 0);
            }
        }
        return None;
    }
    let second = next_index(&v, '@', p + 1);
    if second < n {
        proof {
            if format_valid(email@) {
                lemma_valid_at(email@, p as int);
            }
        }
        return None;
    }
    let local = email.substring_char(0, p);
    let domain = email.substring_char(p + 1, n);
    let dv = chars_of(domain);
    let last_dot = last_index(&dv, '.');
    match last_dot {
        None => {
            proof {
                if format_valid(email@) {
                    lemma_valid_at(email@, p as int);
                    assert(email@.subrange(p + 1, email@.len() as int) =~= dv@);
                }
            }
            None
        },
        Some(d) => {
            let lv = chars_of(local);
            let local_dot = next_index(&lv, '.', 0);
            let tld = domain.substring_char(d + 1, dv.len());
            let tld_len = tld.len();
            proof {
                assert(email@ =~= local@ + seq!['@'] + domain@);
                assert(email@[p + 1 + d] == dv@[d as int]);
                lemma_make_valid(email@, p as int, d as int);
                assert(!local@.contains('@')) by {
                    if local@.contains('@') {
                        let k = choose|k: int| 0 <= k < local@.len() && local@[k] == '@';
                        assert(email@[k] == '@');
                    }
                }
                if local_dot < lv.len() {
                    assert(local@[local_dot as int] == '.');
                }
                lemma_last_label(domain@, d as int, tld@);
                assert(tld_len == encode_utf8(tld@).len() as usize);
            }
            Some(AddressParts {
                local: String::from_str(local),
                domain: String::from_str(domain),
                local_has_dot: local_dot < lv.len(),
                tld_len,
            })
        },
    }
}

/// A checked address is exactly its local part, an `@` and its domain, and
/// the local part is not empty.
pub proof fn lemma_checked_address_splits(e: Seq<char>, p: AddressParts)
    requires
        check_outcome(e, Some(p)),
    ensures
        e == p.local@ + seq!['@'] + p.domain@,
        p.local@.len() > 0,
        p.domain@.contains('.'),
{
    let w = choose|w: int| 0 < w < e.len() && #[trigger] e[w] == '@'
        && (forall|q: int| 0 <= q < e.len() && q != w ==> e[q] != '@')
        && e.subrange(w + 1, e.len() as int).contains('.');
    let n = p.local@.len() as int;
    assert(e[n] == '@');
    if n != w {
        if n < w {
            assert(e[w] == p.domain@[w - n - 1]);
        } else {
            assert(e[w] == p.local@[w]);
        }
        assert(false);
    }
    assert(e.subrange(w + 1, e.len() as int) =~= p.domain@);
}

} // verus!
