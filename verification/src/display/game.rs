//! The rows of a board as text.
use vstd::prelude::*;
use vstd::string::StringExecFns;

use crate::tile::Tile;

verus! {

/// What one tile looks like: its glyph, but while a game is on (`playing`) a
/// ship looks like water.
pub open spec fn shown(tile: Tile, playing: bool) -> Seq<char> {
    if playing && tile is Ship {
        Tile::Unknown.glyph()
    } else {
        tile.glyph()
    }
}

/// The text of a row: what its tiles look like, one after the other.
pub open spec fn row_text(row: Seq<Tile>, playing: bool) -> Seq<char>
    decreases row.len(),
{
    if row.len() == 0 {
        Seq::empty()
    } else {
        row_text(row.drop_last(), playing) + shown(row.last(), playing)
    }
}

/// The text of one row of a board, see [`row_text`].
pub fn build_row_display(row: &[Tile; 10], playing: bool) -> (text: String)
    ensures
        text@ == row_text(row@, playing),
{
    let mut row_string = String::new();

    let mut i: usize = 0;
    while i < 10
        invariant
            i <= 10,
            row_string@ == row_text(row@.take(i as int), playing),
        decreases 10 - i,
    {
        let tile = row[i];
        proof {
            assert(row@.take(i + 1).drop_last() =~= row@.take(i as int));
            assert(row@.take(i + 1).last() == tile);
        }
        match tile {
            Tile::Ship(_) => {
                if playing {
                    row_string.append(" • ");
                } else {
                    row_string.append(tile.get_tile_display().as_str());
                }
            },
            _ => row_string.append(tile.get_tile_display().as_str()),
        }
        i += 1;
    }
    assert(row@.take(10) =~= row@);
    row_string
}

} // verus!
