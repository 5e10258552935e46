//! The caption: one of three lock glyphs of the embedded icon font, picked
//! at random.

use vstd::prelude::*;

verus! {

/// The number of captions to pick from.
pub const CAPTION_COUNT: u32 = 3;

/// The caption with the given index; each is a single glyph.
pub open spec fn caption_text(index: int) -> Seq<char> {
    if index == 0 {
        seq!['\u{f83d}']
    } else if index == 1 {
        seq!['\u{f840}']
    } else {
        seq!['\u{f456}']
    }
}

/// Whether `text` is one of the captions.
pub open spec fn is_caption(text: Seq<char>) -> bool {
    exists|index: int| 0 <= index < CAPTION_COUNT && text == #[trigger] caption_text(index)
}

/// Calls `rand::thread_rng` and `RngCore::next_u32` on it. Nothing is claimed
/// of the number, which differs from call to call. The first call in a thread
/// seeds the generator and panics when the operating system has no entropy
/// to give; no argument decides that.
#[verifier::external_body]
fn random_u32() -> u32 {
    rand::RngCore::next_u32(&mut rand::thread_rng())
}

/// The caption that the random number `random` selects: the captions take
/// turns as the number grows.
pub fn select_caption(random: u32) -> (r: &'static str)
    ensures
        r@ == caption_text(random as int % CAPTION_COUNT as int),
        is_caption(r@),
{
    proof {
        reveal_strlit("\u{f83d}");
        reveal_strlit("\u{f840}");
        reveal_strlit("\u{f456}");
    }
    let index: u32 = random % CAPTION_COUNT;
    let caption = if index == 0 {
        "\u{f83d}"
    } else if index == 1 {
        "\u{f840}"
    } else {
        "\u{f456}"
    };
    assert(caption@ =~= caption_text(index as int));
    caption
}

/// Picks a caption with a fresh random number.
pub fn choose_caption() -> (r: &'static str)
    ensures
        is_caption(r@),
{
    select_caption(random_u32())
}

} // verus!
