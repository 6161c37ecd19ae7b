//! Laws of the rotation state: applying defaults is idempotent, toggling the
//! active directory walks a cycle through the directory list, and reporting
//! undoes the URI framing that selection adds.

use vstd::prelude::*;
use crate::config::{ConfigModel, normalize_model, toggle_index, uri_scheme, without_scheme_prefix};
use crate::select::uri_of;
use vstd::arithmetic::div_mod::{
    lemma_add_mod_noop, lemma_mod_bound, lemma_mod_self_0, lemma_small_mod,
};

verus! {

/// Applying the defaults twice is the same as applying them once: a record
/// that came out of a load is written back unchanged by a second load.
pub proof fn lemma_normalize_idempotent(m: ConfigModel)
    ensures
        normalize_model(normalize_model(m)) == normalize_model(m),
{
    assert(normalize_model(normalize_model(m)) =~= normalize_model(m));
}

/// A toggle lands on a valid directory index whenever there is at least one
/// directory.
pub proof fn lemma_toggle_in_range(i: int, n: int)
    requires
        0 <= i,
        1 <= n,
    ensures
        0 <= toggle_index(i, n) < n,
{
}

/// The active index after `k` toggles, starting from `i` among `n`
/// directories.
pub open spec fn toggle_iter(i: int, n: int, k: nat) -> int
    decreases k,
{
    if k == 0 {
        i
    } else {
        toggle_index(toggle_iter(i, n, (k - 1) as nat), n)
    }
}

/// Each toggle steps the index forward by one, modulo the number of
/// directories.
proof fn lemma_toggle_iter_mod(i: int, n: int, k: nat)
    requires
        0 <= i < n,
    ensures
        toggle_iter(i, n, k) == (i + k) % n,
    decreases k,
{
    if k == 0 {
        lemma_small_mod(i as nat, n as nat);
    } else {
        lemma_toggle_iter_mod(i, n, (k - 1) as nat);
        let t = (i + k - 1) % n;
        lemma_mod_bound(i + k - 1, n);
        lemma_add_mod_noop(i + k - 1, 1, n);
        if n == 1 {
            lemma_mod_self_0(n);
            lemma_small_mod(0, n as nat);
        } else {
            lemma_small_mod(1, n as nat);
            if t + 1 < n {
                lemma_small_mod((t + 1) as nat, n as nat);
            } else {
                lemma_mod_self_0(n);
            }
        }
    }
}

/// Toggling exactly as many times as there are directories returns the
/// active index to where it started.
pub proof fn lemma_toggle_full_cycle(i: int, n: int)
    requires
        0 <= i < n,
    ensures
        toggle_iter(i, n, n as nat) == i,
{
    lemma_toggle_iter_mod(i, n, n as nat);
    lemma_mod_bound(i, n);
    lemma_add_mod_noop(i, n, n);
    lemma_mod_self_0(n);
    lemma_small_mod(i as nat, n as nat);
    assert((i + n) % n == ((i % n) + (n % n)) % n);
}

/// Reporting undoes the framing that selection adds: stripping the leading
/// scheme prefix from the URI built over any path gives that path back.
pub proof fn lemma_strip_undoes_uri(p: Seq<char>)
    ensures
        without_scheme_prefix(uri_of(p)) == p,
{
    reveal_strlit("file://");
    let u = uri_of(p);
    assert(u.subrange(0, uri_scheme().len() as int) =~= uri_scheme());
    assert(u.subrange(uri_scheme().len() as int, u.len() as int) =~= p);
}

} // verus!
