//! Quantization of sampled field values into glyphs, one ladder per
//! render style. All ladders are total functions of the field value (and,
//! for the contour and blocks styles, of the edge flag or sub-pixel
//! count), with thresholds expressed as multiples of the base threshold.
use vstd::prelude::*;

verus! {

use crate::FIELD_LIMIT_MILLI;
use crate::FIELD_THRESHOLD_MILLI;

/// The ten-character density ramp of the gradient style, from blank to
/// densest.
pub open spec fn gradient_ramp_char(idx: int) -> char {
    if idx == 0 {
        ' '
    } else if idx == 1 {
        '.'
    } else if idx == 2 {
        ':'
    } else if idx == 3 {
        '-'
    } else if idx == 4 {
        '='
    } else if idx == 5 {
        '+'
    } else if idx == 6 {
        '*'
    } else if idx == 7 {
        '#'
    } else if idx == 8 {
        '%'
    } else {
        '@'
    }
}

/// Ramp index chosen by the gradient style: blank below a tenth of the
/// threshold; below the threshold the lower half of the ramp, scaled
/// linearly; at or above the threshold the upper half, scaled by the
/// excess over the threshold capped at three times the threshold. The
/// index is clamped to the ramp in both halves.
pub open spec fn gradient_index_spec(field: int) -> int {
    if field < FIELD_THRESHOLD_MILLI / 10 {
        0
    } else if field >= FIELD_THRESHOLD_MILLI {
        let excess = if field - FIELD_THRESHOLD_MILLI <= 3 * FIELD_THRESHOLD_MILLI {
            field - FIELD_THRESHOLD_MILLI
        } else {
            3 * FIELD_THRESHOLD_MILLI
        };
        let raw = 5 + excess * 4 / (3 * FIELD_THRESHOLD_MILLI);
        if raw <= 9 {
            raw
        } else {
            9
        }
    } else {
        let raw = field * 5 / (FIELD_THRESHOLD_MILLI as int);
        if raw <= 4 {
            raw
        } else {
            4
        }
    }
}

/// Glyph chosen by the gradient style.
pub open spec fn gradient_glyph_spec(field: int) -> char {
    gradient_ramp_char(gradient_index_spec(field))
}

/// The gradient ramp index stays within the ramp for every field value,
/// however large: below the threshold it stays in the lower half, at or
/// above the threshold in the upper half.
pub proof fn lemma_gradient_index_in_ramp(field: int)
    ensures
        0 <= gradient_index_spec(field) <= 9,
        field >= FIELD_THRESHOLD_MILLI ==> 5 <= gradient_index_spec(field) <= 9,
        field < FIELD_THRESHOLD_MILLI ==> 0 <= gradient_index_spec(field) <= 4,
{
}

/// Glyph chosen by the gradient style.
pub fn gradient_glyph(field: i64) -> (r: char)
    requires
        0 <= field <= FIELD_LIMIT_MILLI,
    ensures
        r == gradient_glyph_spec(field as int),
{
    if field < FIELD_THRESHOLD_MILLI / 10 {
        ' '
    } else if field >= FIELD_THRESHOLD_MILLI {
        let excess: i64 = if field - FIELD_THRESHOLD_MILLI <= 3 * FIELD_THRESHOLD_MILLI {
            field - FIELD_THRESHOLD_MILLI
        } else {
            3 * FIELD_THRESHOLD_MILLI
        };
        let raw: i64 = 5 + excess * 4 / (3 * FIELD_THRESHOLD_MILLI);
        let idx: i64 = if raw <= 9 {
            raw
        } else {
            9
        };
        proof {
            lemma_gradient_index_in_ramp(field as int);
        }
        match idx {
            5 => '+',
            6 => '*',
            7 => '#',
            8 => '%',
            _ => '@',
        }
    } else {
        let raw: i64 = field * 5 / FIELD_THRESHOLD_MILLI;
        let idx: i64 = if raw <= 4 {
            raw
        } else {
            4
        };
        proof {
            lemma_gradient_index_in_ramp(field as int);
        }
        match idx {
            0 => ' ',
            1 => '.',
            2 => ':',
            3 => '-',
            _ => '=',
        }
    }
}

/// Glyph chosen by the contour style from the cell's edge flag, its
/// inside/outside state and its field value: an edge cell gets one of
/// three thickness glyphs by field magnitude, a non-edge interior cell a
/// faint fill, a non-edge exterior cell a blank.
pub open spec fn contour_glyph_spec(is_edge: bool, inside: bool, field: int) -> char {
    if is_edge {
        if field > FIELD_THRESHOLD_MILLI + FIELD_THRESHOLD_MILLI / 2 {
            '@'
        } else if field > FIELD_THRESHOLD_MILLI + FIELD_THRESHOLD_MILLI / 5 {
            '#'
        } else {
            'O'
        }
    } else if inside {
        '.'
    } else {
        ' '
    }
}

/// A cell next to a threshold crossing always renders as one of the
/// three edge glyphs, never as fill or blank.
pub proof fn lemma_contour_edge_glyphs(inside: bool, field: int)
    ensures
        contour_glyph_spec(true, inside, field) == '@' || contour_glyph_spec(
            true,
            inside,
            field,
        ) == '#' || contour_glyph_spec(true, inside, field) == 'O',
{
}

/// A cell whose in-range neighbors all lie on its own side of the
/// threshold never renders as an edge glyph: interior cells show the
/// faint fill, exterior cells stay blank.
pub proof fn lemma_contour_uniform_glyphs(inside: bool, field: int)
    ensures
        contour_glyph_spec(false, inside, field) == (if inside {
            '.'
        } else {
            ' '
        }),
{
}

/// Glyph chosen by the contour style.
pub fn contour_glyph(is_edge: bool, inside: bool, field: i64) -> (r: char)
    ensures
        r == contour_glyph_spec(is_edge, inside, field as int),
{
    if is_edge {
        if field > FIELD_THRESHOLD_MILLI + FIELD_THRESHOLD_MILLI / 2 {
            '@'
        } else if field > FIELD_THRESHOLD_MILLI + FIELD_THRESHOLD_MILLI / 5 {
            '#'
        } else {
            'O'
        }
    } else if inside {
        '.'
    } else {
        ' '
    }
}

/// Glyph chosen by the solid style: a three-level staircase above the
/// threshold, blank below it.
pub open spec fn solid_glyph_spec(field: int) -> char {
    if field >= FIELD_THRESHOLD_MILLI {
        if field > 3 * FIELD_THRESHOLD_MILLI {
            '@'
        } else if field > 2 * FIELD_THRESHOLD_MILLI {
            '#'
        } else {
            '*'
        }
    } else {
        ' '
    }
}

/// Glyph chosen by the solid style.
pub fn solid_glyph(field: i64) -> (r: char)
    requires
        0 <= field <= FIELD_LIMIT_MILLI,
    ensures
        r == solid_glyph_spec(field as int),
{
    if field >= FIELD_THRESHOLD_MILLI {
        if field > 3 * FIELD_THRESHOLD_MILLI {
            '@'
        } else if field > 2 * FIELD_THRESHOLD_MILLI {
            '#'
        } else {
            '*'
        }
    } else {
        ' '
    }
}

/// Glyph chosen by the blocks style from the number of sub-pixel samples
/// above the threshold (0 to 4) and the cell's corner field value: a
/// five-level shading ramp, with full coverage split once more by field
/// magnitude.
pub open spec fn blocks_glyph_spec(count: int, field: int) -> char {
    if count <= 0 {
        ' '
    } else if count == 1 {
        '░'
    } else if count == 2 {
        '▒'
    } else if count == 3 {
        '▓'
    } else if count == 4 {
        if field > 2 * FIELD_THRESHOLD_MILLI {
            '█'
        } else {
            '▓'
        }
    } else {
        '█'
    }
}

/// No sub-pixel sample above the threshold always yields the blank
/// glyph; full coverage with a corner field at most twice the threshold
/// yields the second-densest glyph, not the densest.
pub proof fn lemma_blocks_glyph_edges(field: int)
    ensures
        blocks_glyph_spec(0, field) == ' ',
        field <= 2 * FIELD_THRESHOLD_MILLI ==> blocks_glyph_spec(4, field) == '▓',
{
}

/// Glyph chosen by the blocks style.
pub fn blocks_glyph(count: usize, field: i64) -> (r: char)
    requires
        0 <= field <= FIELD_LIMIT_MILLI,
    ensures
        r == blocks_glyph_spec(count as int, field as int),
{
    if count == 0 {
        ' '
    } else if count == 1 {
        '░'
    } else if count == 2 {
        '▒'
    } else if count == 3 {
        '▓'
    } else if count == 4 {
        if field > 2 * FIELD_THRESHOLD_MILLI {
            '█'
        } else {
            '▓'
        }
    } else {
        '█'
    }
}

/// Glyph chosen by the gooey style: a seven-level ladder with thresholds
/// at 0.3, 0.6, 0.9, 1.0, 1.3 and 2.0 times the base threshold,
/// separating outside, skin and core zones.
pub open spec fn gooey_glyph_spec(field: int) -> char {
    if field < 3 * FIELD_THRESHOLD_MILLI / 10 {
        ' '
    } else if field < 6 * FIELD_THRESHOLD_MILLI / 10 {
        '·'
    } else if field < 9 * FIELD_THRESHOLD_MILLI / 10 {
        '○'
    } else if field < FIELD_THRESHOLD_MILLI {
        '◯'
    } else if field < FIELD_THRESHOLD_MILLI + 3 * FIELD_THRESHOLD_MILLI / 10 {
        '●'
    } else if field < 2 * FIELD_THRESHOLD_MILLI {
        '◉'
    } else {
        '◈'
    }
}

/// Glyph chosen by the gooey style.
pub fn gooey_glyph(field: i64) -> (r: char)
    requires
        0 <= field <= FIELD_LIMIT_MILLI,
    ensures
        r == gooey_glyph_spec(field as int),
{
    if field < 3 * FIELD_THRESHOLD_MILLI / 10 {
        ' '
    } else if field < 6 * FIELD_THRESHOLD_MILLI / 10 {
        '·'
    } else if field < 9 * FIELD_THRESHOLD_MILLI / 10 {
        '○'
    } else if field < FIELD_THRESHOLD_MILLI {
        '◯'
    } else if field < FIELD_THRESHOLD_MILLI + 3 * FIELD_THRESHOLD_MILLI / 10 {
        '●'
    } else if field < 2 * FIELD_THRESHOLD_MILLI {
        '◉'
    } else {
        '◈'
    }
}

} // verus!
