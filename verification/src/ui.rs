//! The one-line position bar: a row of dashes with a star at the crossfade
//! position and, during a fade, an arrowhead pushing the star along.

use vstd::prelude::*;
use crate::text::push_char;

verus! {

/// Number of characters in the position bar.
pub const BAR_WIDTH: usize = 41;

/// Where the arrowhead goes for a star at `pos`: on the side opposite to the
/// way it points ('<' to the right of the star, anything else to its left),
/// or on the other side where that one is off the bar. The result may lie
/// off the bar, in which case no arrowhead is drawn.
pub open spec fn arrow_slot(pos: int, arrow: char) -> int {
    let preferred = if arrow == '<' { pos + 1 } else { pos - 1 };
    let fallback = if arrow == '<' { pos - 1 } else { pos + 1 };
    if 0 <= preferred < BAR_WIDTH {
        preferred
    } else {
        fallback
    }
}

/// The star's position: `pos`, or the last cell where `pos` is past the end.
pub open spec fn star_slot(pos: int) -> int {
    if pos < BAR_WIDTH - 1 {
        pos
    } else {
        BAR_WIDTH - 1
    }
}

/// The character at cell `i` of the bar.
pub open spec fn bar_char(pos: int, arrow: Option<char>, i: int) -> char {
    let star = star_slot(pos);
    if i == star {
        '*'
    } else {
        match arrow {
            Some(a) => if i == arrow_slot(star, a) {
                a
            } else {
                '-'
            },
            None => '-',
        }
    }
}

/// The bar for a star at `pos` with the optional arrowhead.
pub open spec fn spec_render_bar(pos: int, arrow: Option<char>) -> Seq<char> {
    Seq::new(BAR_WIDTH as nat, |i: int| bar_char(pos, arrow, i))
}

/// Draws the position bar with the star at cell `pos` (the last cell when
/// `pos` is past the end) and, where `arrow` is given, the arrowhead
/// touching the star on the side it pushes from.
pub fn render_bar(pos: usize, arrow: Option<char>) -> (bar: String)
    ensures
        bar@ == spec_render_bar(pos as int, arrow),
{
    let mut chars: Vec<char> = Vec::new();
    for _i in 0..BAR_WIDTH
        invariant
            forall|k: int| 0 <= k < chars@.len() ==> chars@[k] == '-',
            chars@.len() == _i,
    {
        chars.push('-');
    }
    let pos = if pos < BAR_WIDTH - 1 { pos } else { BAR_WIDTH - 1 };
    chars.set(pos, '*');
    if let Some(a) = arrow {
        let preferred: Option<usize> = if a == '<' {
            Some(pos + 1)
        } else if pos > 0 {
            Some(pos - 1)
        } else {
            None
        };
        let fallback: Option<usize> = if a == '<' {
            if pos > 0 {
                Some(pos - 1)
            } else {
                None
            }
        } else {
            Some(pos + 1)
        };
        let arrow_pos = match preferred {
            Some(p) if p < BAR_WIDTH => Some(p),
            _ => fallback,
        };
        if let Some(p) = arrow_pos {
            if p < BAR_WIDTH && p != pos {
                chars.set(p, a);
            }
        }
    }
    assert(chars@ =~= spec_render_bar(pos as int, arrow));
    let mut bar = String::new();
    for i in 0..BAR_WIDTH
        invariant
            chars@.len() == BAR_WIDTH,
            bar@ == chars@.take(i as int),
    {
        push_char(&mut bar, chars[i]);
        assert(bar@ =~= chars@.take(i + 1));
    }
    assert(chars@.take(BAR_WIDTH as int) =~= chars@);
    bar
}

/// The bar always has its full width and exactly one star, at the clamped
/// position; an arrowhead, when given, is drawn in a cell next to the star,
/// on the side opposite to where it points whenever that cell is on the
/// bar; every other cell is a dash.
pub proof fn lemma_bar_shape(pos: int, arrow: Option<char>)
    requires
        0 <= pos,
    ensures
        spec_render_bar(pos, arrow).len() == BAR_WIDTH,
        spec_render_bar(pos, arrow)[star_slot(pos)] == '*',
        forall|i: int|
            0 <= i < BAR_WIDTH && i != star_slot(pos) && (arrow is None || i != arrow_slot(
                star_slot(pos),
                arrow->0,
            )) ==> #[trigger] spec_render_bar(pos, arrow)[i] == '-',
        arrow matches Some(a) ==> ({
            let k = arrow_slot(star_slot(pos), a);
            &&& 0 <= k < BAR_WIDTH
            &&& (k == star_slot(pos) + 1 || k == star_slot(pos) - 1)
            &&& spec_render_bar(pos, arrow)[k] == a
            &&& (a == '<' && star_slot(pos) < BAR_WIDTH - 1 ==> k == star_slot(pos) + 1)
            &&& (a != '<' && star_slot(pos) > 0 ==> k == star_slot(pos) - 1)
        }),
{
}

/// The cells of the bar in terms of the position asked for: the star sits
/// at `pos` when that cell is on the bar, at the last cell otherwise; an
/// arrowhead '<' sits right of the star (left of it when the star is at the
/// last cell), any other arrowhead left of the star (right of it when the
/// star is at the first cell); every other cell is a dash.
pub proof fn lemma_bar_cells(pos: int, arrow: Option<char>)
    requires
        0 <= pos,
    ensures
        ({
            let bar = spec_render_bar(pos, arrow);
            let p = if pos < BAR_WIDTH { pos } else { BAR_WIDTH - 1 };
            &&& bar.len() == 41
            &&& 0 <= pos < BAR_WIDTH ==> bar[pos] == '*'
            &&& pos >= BAR_WIDTH ==> bar[BAR_WIDTH - 1] == '*'
            &&& arrow is None ==> forall|i: int|
                0 <= i < BAR_WIDTH && i != p ==> #[trigger] bar[i] == '-'
            &&& arrow matches Some(a) ==> {
                &&& (a == '<' && p < BAR_WIDTH - 1 ==> bar[p + 1] == a)
                &&& (a == '<' && p == BAR_WIDTH - 1 ==> bar[p - 1] == a)
                &&& (a != '<' && p > 0 ==> bar[p - 1] == a)
                &&& (a != '<' && p == 0 ==> bar[p + 1] == a)
                &&& forall|i: int|
                    0 <= i < BAR_WIDTH && i != p && i != p - 1 && i != p + 1 ==> #[trigger] bar[i]
                        == '-'
                &&& (a == '<' && p < BAR_WIDTH - 1 && p > 0 ==> bar[p - 1] == '-')
                &&& (a != '<' && p > 0 && p < BAR_WIDTH - 1 ==> bar[p + 1] == '-')
            }
        }),
{
}

} // verus!
