use vstd::prelude::*;
use rand::rngs::StdRng;
use rand::Rng;

verus! {

#[verifier::external_type_specification]
#[verifier::external_body]
pub struct ExStdRng(rand::rngs::StdRng);

/// Which rotation the "rotation from one vector to another" primitive hands
/// back.
#[derive(Clone, Copy, Debug, PartialEq, Eq, Structural)]
pub enum Turn {
    /// The rotation computed from the axis and angle between the vectors.
    Computed,
    /// The identity rotation.
    Identity,
    /// A half turn about the out-of-plane axis.
    HalfTurn,
}

/// Resolves the rotation primitive: a well-defined rotation is kept; a
/// degenerate one (non-finite, or so close to the identity that its axis
/// means nothing) becomes the identity when the coin shows true and a half
/// turn otherwise.
pub fn turn_choice(degenerate: bool, coin: bool) -> (r: Turn)
    ensures
        !degenerate ==> r == Turn::Computed,
        degenerate && coin ==> r == Turn::Identity,
        degenerate && !coin ==> r == Turn::HalfTurn,
{
    if !degenerate {
        Turn::Computed
    } else if coin {
        Turn::Identity
    } else {
        Turn::HalfTurn
    }
}

/// Relies on rand's `Rng::gen::<bool>` on a `StdRng`: one fair coin drawn
/// from the generator, which advances it.
#[verifier::external_body]
fn draw_coin(rng: &mut StdRng) -> (r: bool) {
    rng.gen::<bool>()
}

/// Resolves the rotation primitive, drawing the tie-break coin from `rng`
/// only when the rotation is degenerate. A well-defined rotation consumes no
/// randomness, so a seeded run replays exactly.
pub fn resolve_turn(rng: &mut StdRng, degenerate: bool) -> (r: Turn)
    ensures
        !degenerate ==> r == Turn::Computed && *final(rng) == *old(rng),
        degenerate ==> r == Turn::Identity || r == Turn::HalfTurn,
{
    if degenerate {
        let coin = draw_coin(rng);
        turn_choice(true, coin)
    } else {
        Turn::Computed
    }
}

} // verus!
