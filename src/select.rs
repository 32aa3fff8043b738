//! Random selection of one image of a gallery.

use vstd::prelude::*;
use rand::Rng;
use crate::imgur::Gallery;

verus! {

/// Why no image could be selected.
#[derive(Debug, Clone, Copy, PartialEq, Eq)]
pub enum SelectError {
    /// The gallery holds no image.
    Empty,
    /// The declared image count differs from the number of images.
    CountMismatch,
    /// The drawn index lies past the last image.
    OutOfRange,
}

/// What selecting the image at `index` of `g` gives: its link, or why not.
pub open spec fn select_outcome(g: Gallery, index: int) -> Result<Seq<char>, SelectError> {
    if g.images@.len() == 0 {
        Err(SelectError::Empty)
    } else if g.images_count as int != g.images@.len() {
        Err(SelectError::CountMismatch)
    } else if index < 0 || index >= g.images@.len() {
        Err(SelectError::OutOfRange)
    } else {
        Ok(g.links()[index])
    }
}

/// Relies on rand's `OsRng` with `Rng::gen_range`: a draw from `0..n`, which
/// lies in that range (the range is not empty, so it does not panic).
#[verifier::external_body]
fn random_below(n: u64) -> (r: u64)
    requires
        n > 0,
    ensures
        r < n,
{
    rand::rngs::OsRng.gen_range(0..n)
}

/// The link of the image at `index`, so that a uniform draw of the index is a
/// uniform draw of the image.
pub fn select_at(g: &Gallery, index: u64) -> (r: Result<String, SelectError>)
    ensures
        match r {
            Ok(link) => select_outcome(*g, index as int) == Ok::<Seq<char>, SelectError>(link@),
            Err(e) => select_outcome(*g, index as int) == Err::<Seq<char>, SelectError>(e),
        },
{
    let n = g.images.len();
    if n == 0 {
        return Err(SelectError::Empty);
    }
    if g.images_count < 0 || g.images_count as u64 != n as u64 {
        return Err(SelectError::CountMismatch);
    }
    if index >= n as u64 {
        return Err(SelectError::OutOfRange);
    }
    Ok(g.images[index as usize].link.clone())
}

/// The link of an image drawn at random from `0..count`; refuses an empty
/// gallery and one whose count disagrees with its images.
pub fn select(g: &Gallery) -> (r: Result<String, SelectError>)
    ensures
        g.images@.len() == 0 <==> r == Err::<String, SelectError>(SelectError::Empty),
        (g.images@.len() > 0 && g.images_count as int != g.images@.len()) <==> r
            == Err::<String, SelectError>(SelectError::CountMismatch),
        g.ready() <==> r is Ok,
        r matches Ok(link) ==> exists|i: int|
            0 <= i < g.images@.len() && #[trigger] g.links()[i] == link@,
{
    let n = g.images.len();
    if n == 0 {
        return Err(SelectError::Empty);
    }
    if g.images_count < 0 || g.images_count as u64 != n as u64 {
        return Err(SelectError::CountMismatch);
    }
    let index = random_below(n as u64);
    let r = select_at(g, index);
    assert(select_outcome(*g, index as int) is Ok);
    r
}

/// Every image of a ready gallery is the pick for exactly its own index, and
/// when every link is non-empty so is every pick.
pub proof fn lemma_pick_is_entry(g: Gallery, index: int)
    requires
        g.ready(),
        0 <= index < g.images@.len(),
    ensures
        select_outcome(g, index) == Ok::<Seq<char>, SelectError>(g.images@[index].link@),
        (forall|i: int| 0 <= i < g.images@.len() ==> #[trigger] g.images@[i].link@.len() > 0)
            ==> select_outcome(g, index)->Ok_0.len() > 0,
{
}

/// A gallery whose count is zero yields no pick, whatever the index.
pub proof fn lemma_empty_has_no_pick(g: Gallery, index: int)
    requires
        g.images_count == 0,
    ensures
        select_outcome(g, index) is Err,
{
}

} // verus!
