//! The byte sequences a spinner puts on the wire, and what holds of them.

use vstd::prelude::*;

verus! {

/// The cursor-retreat control byte (backspace). One follows every glyph so
/// that the next frame overwrites it in place, and one more is written on
/// shutdown to erase the last glyph.
pub const RETREAT: u8 = 8;

/// The glyph `|`, shown first in the cycle.
pub const GLYPH_BAR: u8 = 124;

/// The glyph `/`, shown second in the cycle.
pub const GLYPH_SLASH: u8 = 47;

/// The glyph `-`, shown third in the cycle.
pub const GLYPH_DASH: u8 = 45;

/// The glyph `\`, shown fourth in the cycle.
pub const GLYPH_BACKSLASH: u8 = 92;

/// The glyph of frame number `k`: the four spinner glyphs in a fixed cycle.
pub open spec fn glyph_at(k: int) -> u8 {
    if k % 4 == 0 {
        GLYPH_BAR
    } else if k % 4 == 1 {
        GLYPH_SLASH
    } else if k % 4 == 2 {
        GLYPH_DASH
    } else {
        GLYPH_BACKSLASH
    }
}

/// The bytes written after `n` full frames while the loop is still running:
/// glyph, retreat, glyph, retreat, and so on.
pub open spec fn frames_bytes(n: nat) -> Seq<u8>
    decreases n,
{
    if n == 0 {
        Seq::empty()
    } else {
        frames_bytes((n - 1) as nat).push(glyph_at(n - 1)).push(RETREAT)
    }
}

/// The bytes written by a loop that rendered `n` full frames and then
/// observed the stop request: the frames, then the closing retreat.
pub open spec fn finished_bytes(n: nat) -> Seq<u8> {
    frames_bytes(n).push(RETREAT)
}

/// A run of `n` full frames is exactly `2n` bytes long.
pub proof fn lemma_frames_bytes_len(n: nat)
    ensures
        frames_bytes(n).len() == 2 * n,
    decreases n,
{
    if n > 0 {
        lemma_frames_bytes_len((n - 1) as nat);
    }
}

/// Frame `k` occupies positions `2k` and `2k + 1`: its glyph, then a retreat.
pub proof fn lemma_frame_at(n: nat, k: nat)
    requires
        k < n,
    ensures
        frames_bytes(n)[2 * (k as int)] == glyph_at(k as int),
        frames_bytes(n)[2 * (k as int) + 1] == RETREAT,
    decreases n,
{
    lemma_frames_bytes_len((n - 1) as nat);
    if k + 1 < n {
        lemma_frame_at((n - 1) as nat, k);
    }
}

/// The glyph cycle restarts every fourth frame: frame `k` shows the same
/// glyph as frame `k % 4`.
pub proof fn lemma_glyph_period(k: nat)
    ensures
        glyph_at(k as int) == glyph_at((k % 4) as int),
{
}

/// Starting a spinner and stopping it after at least one frame was rendered
/// gives output that opens with the glyph `|` and a retreat and closes with a
/// standalone retreat. (When the stop request wins the race before the first
/// frame, the output is the single closing retreat and opens with no glyph.)
pub proof fn lemma_output_first_and_last(n: nat)
    requires
        1 <= n,
    ensures
        finished_bytes(n)[0] == GLYPH_BAR,
        finished_bytes(n)[1] == RETREAT,
        finished_bytes(n).last() == RETREAT,
{
    lemma_frames_bytes_len(n);
    lemma_frame_at(n, 0);
}

/// Read at even positions, the output cycles exactly through `|`, `/`, `-`,
/// `\` in that order, restarting at `|` after every fourth frame, for as many
/// frames as were rendered before the stop was observed.
pub proof fn lemma_glyph_cycle(n: nat, k: nat)
    requires
        k < n,
    ensures
        finished_bytes(n)[2 * (k as int)] == glyph_at((k % 4) as int),
        k % 4 == 0 ==> finished_bytes(n)[2 * (k as int)] == GLYPH_BAR,
        k % 4 == 1 ==> finished_bytes(n)[2 * (k as int)] == GLYPH_SLASH,
        k % 4 == 2 ==> finished_bytes(n)[2 * (k as int)] == GLYPH_DASH,
        k % 4 == 3 ==> finished_bytes(n)[2 * (k as int)] == GLYPH_BACKSLASH,
{
    lemma_frames_bytes_len(n);
    lemma_frame_at(n, k);
    lemma_glyph_period(k);
}

/// Every glyph byte, at position `2k`, is immediately followed by a retreat
/// byte at position `2k + 1`.
pub proof fn lemma_retreat_follows_glyph(n: nat, k: nat)
    requires
        k < n,
    ensures
        finished_bytes(n)[2 * (k as int) + 1] == RETREAT,
{
    lemma_frames_bytes_len(n);
    lemma_frame_at(n, k);
}

/// However many frames were rendered, the output of a stopped spinner has
/// length twice the frame count plus one, and its very last byte is a single
/// retreat byte.
pub proof fn lemma_last_byte_retreat(n: nat)
    ensures
        finished_bytes(n).len() == 2 * n + 1,
        finished_bytes(n).last() == RETREAT,
{
    lemma_frames_bytes_len(n);
}

} // verus!
