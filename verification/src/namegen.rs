//! Marker file names for the deferred strategy.
//!
//! The deferred strategy relocates the running image, shadow-copies it, and
//! publishes replacements through temporary files.  Each of those files gets
//! a name other tooling can recognize: a leading `.`, an optional
//! human-readable hint taken from the executable's file stem, thirty-two
//! random lowercase letters against collisions, and one of three fixed
//! suffixes telling the relocated original, the shadow copy awaiting
//! deletion, and an in-flight replacement apart.

use vstd::prelude::*;
use crate::paths::{file_stem_spec, file_stem_of, join_spec, path_join, ends_with_spec, is_under_spec, sep_free};

verus! {

#[verifier::external_type_specification]
#[verifier::external_body]
pub struct ExRng(fastrand::Rng);

/// Relies on fastrand's `Rng::new`: seeds a generator from the thread-local
/// one (or from a fixed seed when that is unavailable); it never fails.
pub assume_specification[ fastrand::Rng::new ]() -> (r: fastrand::Rng);

/// Relies on fastrand's `Rng::lowercase`: picks one of the twenty-six
/// letters `a` through `z`.
pub assume_specification[ fastrand::Rng::lowercase ](rng: &mut fastrand::Rng) -> (c: char)
    ensures
        is_lower(c),
;


/// Relies on std's `String::push`: appends exactly the given character.
#[verifier::external_body]
fn push_char(s: &mut String, c: char)
    ensures
        final(s)@ == old(s)@.push(c),
{
    s.push(c);
}

/// The suffix of a shadow copy awaiting deletion; a process whose image
/// carries it is a watcher, not a normal program run.
pub open spec fn selfdelete_suffix() -> Seq<char> {
    ".__selfdelete__.exe"@
}

/// The suffix of a shadow copy awaiting deletion.
pub fn selfdelete_suffix_str() -> (r: &'static str)
    ensures
        r@ == selfdelete_suffix(),
{
    ".__selfdelete__.exe"
}

/// The suffix of a relocated original image.
pub open spec fn relocated_suffix() -> Seq<char> {
    ".__relocated__.exe"@
}

/// The suffix of a relocated original image.
pub fn relocated_suffix_str() -> (r: &'static str)
    ensures
        r@ == relocated_suffix(),
{
    ".__relocated__.exe"
}

/// The suffix of an in-flight replacement not yet renamed into place.
pub open spec fn temp_suffix() -> Seq<char> {
    ".__temp__.exe"@
}

/// The suffix of an in-flight replacement not yet renamed into place.
pub fn temp_suffix_str() -> (r: &'static str)
    ensures
        r@ == temp_suffix(),
{
    ".__temp__.exe"
}

/// The prefix the direct strategy hands to its temporary-file maker: a
/// hidden name carrying the executable's stem when it has one.
pub open spec fn temp_prefix_spec(exe: Seq<char>) -> Seq<char> {
    match file_stem_spec(exe) {
        Some(h) => "."@ + h + ".__temp__"@,
        None => ".__temp__"@,
    }
}

/// Builds the temporary-file prefix for the image at `exe`.
pub fn temp_prefix_for(exe: &str) -> (r: String)
    ensures
        r@ == temp_prefix_spec(exe@),
{
    match file_stem_of(exe) {
        Some(h) => {
            let mut r = String::from_str(".");
            r.append(h.as_str());
            r.append(".__temp__");
            proof {
                assert(r@ =~= temp_prefix_spec(exe@));
            }
            r
        },
        None => String::from_str(".__temp__"),
    }
}

/// A lowercase letter.
pub open spec fn is_lower(c: char) -> bool {
    'a' <= c && c <= 'z'
}

/// The randomized middle of a marker name: thirty-two lowercase letters.
pub open spec fn name_core_ok(core: Seq<char>) -> bool {
    core.len() == 32 && (forall|i: int| 0 <= i < core.len() ==> is_lower(#[trigger] core[i]))
}

/// A marker file name: a leading dot, the optional hint followed by a dot,
/// the random core, and the fixed suffix.
pub open spec fn temp_name_spec(hint: Option<Seq<char>>, core: Seq<char>, suffix: Seq<char>) -> Seq<
    char,
> {
    match hint {
        Some(h) => "."@ + h + "."@ + core + suffix,
        None => "."@ + core + suffix,
    }
}

/// `r` is a marker path in directory `base` with the given hint and suffix,
/// for some thirty-two-letter random core.
pub open spec fn generated_name_ok(
    r: Seq<char>,
    base: Seq<char>,
    hint: Option<Seq<char>>,
    suffix: Seq<char>,
) -> bool {
    exists|core: Seq<char>|
        name_core_ok(core) && r == join_spec(base, temp_name_spec(hint, core, suffix))
}

/// The view of an optional borrowed hint string.
pub open spec fn hint_view(hint: Option<&String>) -> Option<Seq<char>> {
    match hint {
        Some(h) => Some(h@),
        None => None,
    }
}

/// Creates a fresh marker path in `base` with the given suffix: a random
/// name to avoid collisions between concurrent operations and across
/// repeated runs.
pub fn get_temp_executable_name(
    rng: &mut fastrand::Rng,
    base: &str,
    hint: Option<&String>,
    suffix: &str,
) -> (r: String)
    ensures
        generated_name_ok(r@, base@, hint_view(hint), suffix@),
{
    let mut file_name = String::from_str(".");
    match hint {
        Some(h) => {
            file_name.append(h.as_str());
            file_name.append(".");
        },
        None => {},
    }
    let ghost prefix: Seq<char> = file_name@;
    let ghost mut core: Seq<char> = Seq::<char>::empty();
    let mut k: usize = 0;
    while k < 32
        invariant
            k <= 32,
            core.len() == k,
            forall|i: int| 0 <= i < k ==> is_lower(#[trigger] core[i]),
            file_name@ == prefix + core,
        decreases 32 - k,
    {
        let c = rng.lowercase();
        push_char(&mut file_name, c);
        proof {
            core = core.push(c);
            assert(file_name@ =~= prefix + core);
        }
        k = k + 1;
    }
    file_name.append(suffix);
    let r = path_join(base, file_name.as_str());
    proof {
        assert(file_name@ =~= temp_name_spec(hint_view(hint), core, suffix@));
        assert(name_core_ok(core));
        assert(r@ == join_spec(base@, temp_name_spec(hint_view(hint), core, suffix@)));
    }
    r
}

/// None of the three marker suffixes contains a separator.
pub proof fn lemma_marker_suffixes_sep_free()
    ensures
        sep_free(selfdelete_suffix()),
        sep_free(relocated_suffix()),
        sep_free(temp_suffix()),
{
    reveal_strlit(".__selfdelete__.exe");
    reveal_strlit(".__relocated__.exe");
    reveal_strlit(".__temp__.exe");
}

/// A marker file name contains no separator: its pieces — the dots, the
/// hint, the random lowercase core, and the suffix — have none.
pub proof fn lemma_temp_name_no_sep(hint: Option<Seq<char>>, core: Seq<char>, suffix: Seq<char>)
    requires
        hint matches Some(h) ==> sep_free(h),
        sep_free(suffix),
        name_core_ok(core),
    ensures
        sep_free(temp_name_spec(hint, core, suffix)),
{
    reveal_strlit(".");
    assert forall|j: int|
        0 <= j < temp_name_spec(hint, core, suffix).len() implies temp_name_spec(
        hint,
        core,
        suffix,
    )[j] != '/' by {
        let n = temp_name_spec(hint, core, suffix);
        assert(n[j] == '.' || (hint matches Some(h) && h.contains(n[j])) || core.contains(n[j])
            || suffix.contains(n[j])) by {
            match hint {
                Some(h) => {
                    if j < 1 {
                    } else if j < 1 + h.len() {
                        assert(n[j] == h[j - 1]);
                    } else if j < 2 + h.len() {
                        assert(n[j] == '.');
                    } else if j < 2 + h.len() + core.len() {
                        assert(n[j] == core[j - 2 - h.len()]);
                    } else {
                        assert(n[j] == suffix[j - 2 - h.len() - core.len()]);
                    }
                },
                None => {
                    if j < 1 {
                    } else if j < 1 + core.len() {
                        assert(n[j] == core[j - 1]);
                    } else {
                        assert(n[j] == suffix[j - 1 - core.len()]);
                    }
                },
            }
        }
    }
}

/// A marker path generated in `base` never lands strictly inside a
/// directory `pp` that `base` itself is not under: at worst the whole path
/// coincides with `pp`.  In particular, names generated in the parent of a
/// protected directory are not inside that directory.
pub proof fn lemma_generated_name_stays_out(
    r: Seq<char>,
    base: Seq<char>,
    hint: Option<Seq<char>>,
    suffix: Seq<char>,
    pp: Seq<char>,
)
    requires
        generated_name_ok(r, base, hint, suffix),
        hint matches Some(h) ==> sep_free(h),
        sep_free(suffix),
        !is_under_spec(base, pp),
    ensures
        is_under_spec(r, pp) ==> r == pp,
{
    let core = choose|core: Seq<char>|
        name_core_ok(core) && r == join_spec(base, temp_name_spec(hint, core, suffix));
    lemma_temp_name_no_sep(hint, core, suffix);
    reveal_strlit("/");
    let name = temp_name_spec(hint, core, suffix);
    if is_under_spec(r, pp) && r != pp {
        // pp is a strict prefix of r up to a separator; every separator of
        // r lies inside base or is the joining one, so pp would place base
        // at or under pp
        if base.len() > 0 && base[base.len() - 1] == '/' {
            assert(r == base + name);
            if pp.len() < base.len() {
                assert(base.take(pp.len() as int) =~= pp);
                assert(base[pp.len() as int] == '/');
            } else if pp.len() == base.len() {
                assert(base =~= pp);
            } else {
                assert(r[pp.len() as int] == name[pp.len() - base.len()]);
            }
        } else {
            assert(r == base + "/"@ + name);
            if pp.len() < base.len() {
                assert(base.take(pp.len() as int) =~= pp);
                assert(base[pp.len() as int] == '/');
            } else if pp.len() == base.len() {
                assert(base =~= pp);
            } else {
                assert(r[pp.len() as int] == name[pp.len() - base.len() - 1]);
            }
        }
    }
}

/// Every generated marker path ends with the suffix it was built with: the
/// mark survives the randomization, so the startup hook can recognize it.
pub proof fn lemma_generated_name_ends_with(
    r: Seq<char>,
    base: Seq<char>,
    hint: Option<Seq<char>>,
    suffix: Seq<char>,
)
    requires
        generated_name_ok(r, base, hint, suffix),
    ensures
        ends_with_spec(r, suffix),
{
    let core = choose|core: Seq<char>|
        name_core_ok(core) && r == join_spec(base, temp_name_spec(hint, core, suffix));
    assert(r.skip(r.len() - suffix.len()) =~= suffix);
}

} // verus!
