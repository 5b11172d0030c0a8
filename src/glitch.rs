use rand::RngCore;
use vstd::prelude::*;

verus! {

/// A single glitch: the byte at `draw.0 % len` is overwritten by `draw.1 % 256`.
pub open spec fn glitch_step(bytes: Seq<u8>, draw: (u32, u32)) -> Seq<u8> {
    bytes.update((draw.0 as int) % (bytes.len() as int), (draw.1 % 256) as u8)
}

/// The bytes after applying every draw, first to last.
pub open spec fn glitched(bytes: Seq<u8>, draws: Seq<(u32, u32)>) -> Seq<u8>
    decreases draws.len(),
{
    if draws.len() == 0 {
        bytes
    } else {
        glitch_step(glitched(bytes, draws.drop_last()), draws.last())
    }
}

/// The positions at which `a` and `b` differ, within the length of `a`.
pub open spec fn changed_positions(a: Seq<u8>, b: Seq<u8>) -> Set<int> {
    Set::new(|i: int| 0 <= i < a.len() && a[i] != b[i])
}

/// Glitching keeps the length of the bytes.
pub proof fn lemma_glitched_len(bytes: Seq<u8>, draws: Seq<(u32, u32)>)
    requires
        draws.len() == 0 || bytes.len() > 0,
    ensures
        glitched(bytes, draws).len() == bytes.len(),
    decreases draws.len(),
{
    if draws.len() > 0 {
        lemma_glitched_len(bytes, draws.drop_last());
    }
}

/// With no draws the bytes are left as they are.
pub proof fn lemma_no_glitches(bytes: Seq<u8>)
    ensures
        glitched(bytes, Seq::empty()) == bytes,
{
}

/// Each draw changes at most one byte: the glitched bytes differ from the
/// original in at most as many positions as there were draws.
pub proof fn lemma_glitches_change_at_most(bytes: Seq<u8>, draws: Seq<(u32, u32)>)
    requires
        draws.len() == 0 || bytes.len() > 0,
    ensures
        changed_positions(bytes, glitched(bytes, draws)).finite(),
        changed_positions(bytes, glitched(bytes, draws)).len() <= draws.len(),
    decreases draws.len(),
{
    let g = glitched(bytes, draws);
    if draws.len() == 0 {
        assert(changed_positions(bytes, g) =~= Set::<int>::empty());
    } else {
        let rest = draws.drop_last();
        let prev = glitched(bytes, rest);
        lemma_glitches_change_at_most(bytes, rest);
        lemma_glitched_len(bytes, rest);
        let before = changed_positions(bytes, prev);
        let k = (draws.last().0 as int) % (prev.len() as int);
        assert(changed_positions(bytes, g).subset_of(before.insert(k)));
        vstd::set::axiom_set_insert_len(before, k);
        vstd::set_lib::lemma_len_subset(changed_positions(bytes, g), before.insert(k));
    }
}

/// Relies on rand::thread_rng and its RngCore::next_u32: a u32 drawn from the
/// thread-local generator. Nothing is promised of its value.
#[verifier::external_body]
fn random_u32() -> (r: u32) {
    rand::thread_rng().next_u32()
}

/// Overwrites one byte of `bytes` as `glitch_step` describes.
fn apply_glitch(bytes: &mut Vec<u8>, draw: (u32, u32))
    requires
        old(bytes)@.len() > 0,
    ensures
        final(bytes)@ == glitch_step(old(bytes)@, draw),
{
    let index = draw.0 as usize % bytes.len();
    let value = (draw.1 % 256) as u8;
    bytes.set(index, value);
}

/// Applies each draw in turn to a copy of `original`.
pub fn apply_glitches(original: &Vec<u8>, draws: &Vec<(u32, u32)>) -> (r: Vec<u8>)
    requires
        draws@.len() == 0 || original@.len() > 0,
    ensures
        r@ == glitched(original@, draws@),
{
    let mut bytes = original.clone();
    let mut i: usize = 0;
    while i < draws.len()
        invariant
            i <= draws@.len(),
            draws@.len() == 0 || original@.len() > 0,
            bytes@ == glitched(original@, draws@.subrange(0, i as int)),
            bytes@.len() == original@.len(),
        decreases draws@.len() - i,
    {
        proof {
            assert(draws@.subrange(0, i as int + 1).drop_last() =~= draws@.subrange(0, i as int));
        }
        apply_glitch(&mut bytes, draws[i]);
        i = i + 1;
    }
    proof {
        assert(draws@.subrange(0, i as int) =~= draws@);
    }
    bytes
}

/// Corrupts `num_glitches` randomly chosen bytes of a copy of `original`, each
/// with a random value. Positions are drawn uniformly with replacement.
pub fn glitch_bytes(original: &Vec<u8>, num_glitches: u32) -> (r: Vec<u8>)
    requires
        num_glitches == 0 || original@.len() > 0,
    ensures
        exists|draws: Seq<(u32, u32)>|
            draws.len() == num_glitches && r@ == #[trigger] glitched(original@, draws),
        r@.len() == original@.len(),
        num_glitches == 0 ==> r@ == original@,
        changed_positions(original@, r@).finite(),
        changed_positions(original@, r@).len() <= num_glitches,
{
    let mut bytes = original.clone();
    let ghost mut draws: Seq<(u32, u32)> = Seq::empty();
    let mut n: u32 = 0;
    while n < num_glitches
        invariant
            n <= num_glitches,
            num_glitches == 0 || original@.len() > 0,
            draws.len() == n,
            bytes@ == glitched(original@, draws),
            bytes@.len() == original@.len(),
        decreases num_glitches - n,
    {
        let position = random_u32();
        let value = random_u32();
        proof {
            assert(draws.push((position, value)).drop_last() =~= draws);
        }
        apply_glitch(&mut bytes, (position, value));
        proof {
            draws = draws.push((position, value));
        }
        n = n + 1;
    }
    proof {
        lemma_glitches_change_at_most(original@, draws);
    }
    bytes
}

} // verus!
