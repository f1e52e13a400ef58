//! Big block-letter renderer for lyric lines.
//!
//! Glyphs are authored on a 10-row pixel grid but drawn with half-block
//! characters, so two pixel rows share one terminal row. That keeps the on
//! screen height at `HEIGHT` while doubling the vertical detail, and it also
//! evens out stroke weight: a terminal cell is roughly twice as tall as it is
//! wide, so a half-cell-tall horizontal bar reads the same thickness as a
//! one-cell-wide vertical stem.
//!
//! Widths are per-glyph rather than fixed, otherwise narrow letters like `I`
//! float in a pocket of empty space while `M` and `W` feel cramped.
use vstd::prelude::*;

use crate::text::{chars_of, push_char};
use crate::unicode::{first_uppercase, first_uppercase_char};

verus! {

/// Rows of terminal output produced by [`render`].
pub const HEIGHT: usize = 5;

/// Rows in the authored pixel grid. Always `HEIGHT * 2`.
pub const PX_ROWS: usize = 10;

/// One glyph: `PX_ROWS` pixel rows, `#` for ink and a space for paper.
pub type Glyph = [&'static str; PX_ROWS];

pub const A: Glyph = [
    "  ##  ", " #  # ", " #  # ", "#    #", "#    #",
    "######", "#    #", "#    #", "#    #", "#    #",
];
pub const B: Glyph = [
    "##### ", "#    #", "#    #", "#    #", "##### ",
    "#    #", "#    #", "#    #", "#    #", "##### ",
];
pub const C: Glyph = [
    " #### ", "#    #", "#     ", "#     ", "#     ",
    "#     ", "#     ", "#     ", "#    #", " #### ",
];
pub const D: Glyph = [
    "##### ", "#    #", "#    #", "#    #", "#    #",
    "#    #", "#    #", "#    #", "#    #", "##### ",
];
pub const E: Glyph = [
    "######", "#     ", "#     ", "#     ", "##### ",
    "#     ", "#     ", "#     ", "#     ", "######",
];
pub const F: Glyph = [
    "######", "#     ", "#     ", "#     ", "##### ",
    "#     ", "#     ", "#     ", "#     ", "#     ",
];
pub const G: Glyph = [
    " #### ", "#    #", "#     ", "#     ", "#     ",
    "#  ###", "#    #", "#    #", "#    #", " #### ",
];
pub const H: Glyph = [
    "#    #", "#    #", "#    #", "#    #", "######",
    "#    #", "#    #", "#    #", "#    #", "#    #",
];
pub const I: Glyph = [
    "###", " # ", " # ", " # ", " # ",
    " # ", " # ", " # ", " # ", "###",
];
pub const J: Glyph = [
    "   ##", "    #", "    #", "    #", "    #",
    "    #", "    #", "#   #", "#   #", " ### ",
];
pub const K: Glyph = [
    "#    #", "#   # ", "#  #  ", "# #   ", "##    ",
    "##    ", "# #   ", "#  #  ", "#   # ", "#    #",
];
pub const L: Glyph = [
    "#     ", "#     ", "#     ", "#     ", "#     ",
    "#     ", "#     ", "#     ", "#     ", "######",
];
pub const M: Glyph = [
    "#      #", "##    ##", "# #  # #", "# #  # #", "#  ##  #",
    "#      #", "#      #", "#      #", "#      #", "#      #",
];
pub const N: Glyph = [
    "#    #", "##   #", "##   #", "# #  #", "# #  #",
    "#  # #", "#  # #", "#   ##", "#   ##", "#    #",
];
pub const O: Glyph = [
    " #### ", "#    #", "#    #", "#    #", "#    #",
    "#    #", "#    #", "#    #", "#    #", " #### ",
];
pub const P: Glyph = [
    "##### ", "#    #", "#    #", "#    #", "#    #",
    "##### ", "#     ", "#     ", "#     ", "#     ",
];
pub const Q: Glyph = [
    " #### ", "#    #", "#    #", "#    #", "#    #",
    "#    #", "#    #", "#  # #", "#   # ", " ### #",
];
pub const R: Glyph = [
    "##### ", "#    #", "#    #", "#    #", "#    #",
    "##### ", "#  #  ", "#   # ", "#    #", "#    #",
];
pub const S: Glyph = [
    " #### ", "#    #", "#     ", "#     ", " #### ",
    "     #", "     #", "     #", "#    #", " #### ",
];
pub const T: Glyph = [
    "#####", "  #  ", "  #  ", "  #  ", "  #  ",
    "  #  ", "  #  ", "  #  ", "  #  ", "  #  ",
];
pub const U: Glyph = [
    "#    #", "#    #", "#    #", "#    #", "#    #",
    "#    #", "#    #", "#    #", "#    #", " #### ",
];
pub const V: Glyph = [
    "#    #", "#    #", "#    #", "#    #", " #  # ",
    " #  # ", " #  # ", "  ##  ", "  ##  ", "  ##  ",
];
pub const W: Glyph = [
    "#      #", "#      #", "#      #", "#  ##  #", "#  ##  #",
    "# #  # #", "# #  # #", "##    ##", "##    ##", "#      #",
];
pub const X: Glyph = [
    "#    #", "#    #", " #  # ", " #  # ", "  ##  ",
    "  ##  ", " #  # ", " #  # ", "#    #", "#    #",
];
pub const Y: Glyph = [
    "#    #", "#    #", " #  # ", " #  # ", "  ##  ",
    "  ##  ", "  ##  ", "  ##  ", "  ##  ", "  ##  ",
];
pub const Z: Glyph = [
    "######", "     #", "    # ", "    # ", "   #  ",
    "  #   ", "  #   ", " #    ", "#     ", "######",
];
pub const D0: Glyph = [
    " #### ", "#    #", "#   ##", "#   ##", "#  # #",
    "# #  #", "##   #", "##   #", "#    #", " #### ",
];
pub const D1: Glyph = [
    "  #  ", " ##  ", "# #  ", "  #  ", "  #  ",
    "  #  ", "  #  ", "  #  ", "  #  ", "#####",
];
pub const D2: Glyph = [
    " #### ", "#    #", "     #", "     #", "    # ",
    "   #  ", "  #   ", " #    ", "#     ", "######",
];
pub const D3: Glyph = [
    " #### ", "#    #", "     #", "     #", " #### ",
    "     #", "     #", "     #", "#    #", " #### ",
];
pub const D4: Glyph = [
    "#    #", "#    #", "#    #", "#    #", "#    #",
    "######", "     #", "     #", "     #", "     #",
];
pub const D5: Glyph = [
    "######", "#     ", "#     ", "#     ", "##### ",
    "     #", "     #", "     #", "#    #", " #### ",
];
pub const D6: Glyph = [
    " #### ", "#    #", "#     ", "#     ", "##### ",
    "#    #", "#    #", "#    #", "#    #", " #### ",
];
pub const D7: Glyph = [
    "######", "     #", "    # ", "    # ", "   #  ",
    "   #  ", "  #   ", "  #   ", " #    ", " #    ",
];
pub const D8: Glyph = [
    " #### ", "#    #", "#    #", "#    #", " #### ",
    "#    #", "#    #", "#    #", "#    #", " #### ",
];
pub const D9: Glyph = [
    " #### ", "#    #", "#    #", "#    #", " #####",
    "     #", "     #", "     #", "#    #", " #### ",
];
pub const APOS: Glyph = [
    "##", "##", "##", "  ", "  ",
    "  ", "  ", "  ", "  ", "  ",
];
pub const COMMA: Glyph = [
    "   ", "   ", "   ", "   ", "   ",
    "   ", "   ", " ##", " ##", "## ",
];
pub const DOT: Glyph = [
    "  ", "  ", "  ", "  ", "  ",
    "  ", "  ", "  ", "##", "##",
];
pub const BANG: Glyph = [
    "##", "##", "##", "##", "##",
    "##", "  ", "  ", "##", "##",
];
pub const QUERY: Glyph = [
    " #### ", "#    #", "     #", "     #", "   ## ",
    "  #   ", "  #   ", "      ", "  ##  ", "  ##  ",
];
pub const DASH: Glyph = [
    "     ", "     ", "     ", "     ", "#####",
    "     ", "     ", "     ", "     ", "     ",
];
pub const SPACE: Glyph = [
    "   ", "   ", "   ", "   ", "   ",
    "   ", "   ", "   ", "   ", "   ",
];
pub const LPAREN: Glyph = [
    "  #", " # ", "#  ", "#  ", "#  ",
    "#  ", "#  ", "#  ", " # ", "  #",
];
pub const RPAREN: Glyph = [
    "#  ", " # ", "  #", "  #", "  #",
    "  #", "  #", "  #", " # ", "#  ",
];
pub const COLON: Glyph = [
    "  ", "  ", "##", "##", "  ",
    "  ", "##", "##", "  ", "  ",
];
pub const QUOTE: Glyph = [
    "## ##", "## ##", "## ##", "     ", "     ",
    "     ", "     ", "     ", "     ", "     ",
];
pub const BLANK: Glyph = [
    "    ", "    ", "    ", "    ", "    ",
    "    ", "    ", "    ", "    ", "    ",
];
pub const CY_BE: Glyph = [
    "######", "#     ", "#     ", "#     ", "##### ",
    "#    #", "#    #", "#    #", "#    #", "##### ",
];
pub const CY_GE: Glyph = [
    "######", "#     ", "#     ", "#     ", "#     ",
    "#     ", "#     ", "#     ", "#     ", "#     ",
];
pub const CY_DE: Glyph = [
    "  ####  ", "  #  #  ", "  #  #  ", "  #  #  ", "  #  #  ",
    "  #  #  ", " #    # ", " #    # ", "########", "#      #",
];
pub const CY_YO: Glyph = [
    " #  # ", "      ", "######", "#     ", "##### ",
    "#     ", "#     ", "#     ", "#     ", "######",
];
pub const CY_ZHE: Glyph = [
    "#  #  #", "#  #  #", " # # # ", " # # # ", "  ###  ",
    "  ###  ", " # # # ", " # # # ", "#  #  #", "#  #  #",
];
pub const CY_I: Glyph = [
    "#    #", "#    #", "#   ##", "#  # #", "#  # #",
    "# #  #", "# #  #", "##   #", "#    #", "#    #",
];
pub const CY_IKR: Glyph = [
    " #### ", "      ", "#    #", "#   ##", "#  # #",
    "#  # #", "# #  #", "# #  #", "##   #", "#    #",
];
pub const CY_EL: Glyph = [
    "  ####", "  #  #", "  #  #", "  #  #", " #   #",
    " #   #", " #   #", "#    #", "#    #", "#    #",
];
pub const CY_PE: Glyph = [
    "######", "#    #", "#    #", "#    #", "#    #",
    "#    #", "#    #", "#    #", "#    #", "#    #",
];
pub const CY_U: Glyph = [
    "#    #", "#    #", " #  # ", " #  # ", "  ##  ",
    "  #   ", "  #   ", " #    ", "##    ", "#     ",
];
pub const CY_EF: Glyph = [
    "   #   ", " ##### ", "#  #  #", "#  #  #", "#  #  #",
    "#  #  #", "#  #  #", " ##### ", "   #   ", "   #   ",
];
pub const CY_TSE: Glyph = [
    "#    # ", "#    # ", "#    # ", "#    # ", "#    # ",
    "#    # ", "#    # ", "#    # ", "#######", "      #",
];
pub const CY_CHE: Glyph = [
    "#    #", "#    #", "#    #", "#    #", "#    #",
    " #####", "     #", "     #", "     #", "     #",
];
pub const CY_SHA: Glyph = [
    "#   #   #", "#   #   #", "#   #   #", "#   #   #", "#   #   #",
    "#   #   #", "#   #   #", "#   #   #", "#   #   #", "#########",
];
pub const CY_SHCHA: Glyph = [
    "#   #   # ", "#   #   # ", "#   #   # ", "#   #   # ", "#   #   # ",
    "#   #   # ", "#   #   # ", "#   #   # ", "##########", "        ##",
];
pub const CY_HARD: Glyph = [
    "##     ", " #     ", " #     ", " #     ", " ##### ",
    " #    #", " #    #", " #    #", " #    #", " ##### ",
];
pub const CY_YERY: Glyph = [
    "#      #", "#      #", "#      #", "#      #", "#####  #",
    "#    # #", "#    # #", "#    # #", "#    # #", "#####  #",
];
pub const CY_SOFT: Glyph = [
    "#     ", "#     ", "#     ", "#     ", "##### ",
    "#    #", "#    #", "#    #", "#    #", "##### ",
];
pub const CY_E: Glyph = [
    " #### ", "#    #", "     #", "     #", "  ####",
    "     #", "     #", "     #", "#    #", " #### ",
];
pub const CY_YU: Glyph = [
    "#   #### ", "#  #    #", "#  #    #", "#  #    #", "####    #",
    "#  #    #", "#  #    #", "#  #    #", "#  #    #", "#   #### ",
];
pub const CY_YA: Glyph = [
    " #####", "#    #", "#    #", "#    #", " #####",
    "   # #", "  #  #", " #   #", "#    #", "#    #",
];

/// The glyph drawn for a character that has already been upper-cased.
pub open spec fn glyph_for(upper: char) -> Glyph {
    match upper {

        'A' | 'А' => A,
        'B' => B,
        'C' | 'С' => C,
        'D' => D,
        'E' | 'Е' => E,
        'F' => F,
        'G' => G,
        'H' | 'Н' => H,
        'I' => I,
        'J' => J,
        'K' | 'К' => K,
        'L' => L,
        'M' | 'М' => M,
        'N' => N,
        'O' | 'О' => O,
        'P' | 'Р' => P,
        'Q' => Q,
        'R' => R,
        'S' => S,
        'T' | 'Т' => T,
        'U' => U,
        'V' => V,
        'W' => W,
        'X' | 'Х' => X,
        'Y' => Y,
        'Z' => Z,

        'В' => B,
        'Б' => CY_BE,
        'Г' => CY_GE,
        'Д' => CY_DE,
        'Ё' => CY_YO,
        'Ж' => CY_ZHE,
        'З' => D3,
        'И' => CY_I,
        'Й' => CY_IKR,
        'Л' => CY_EL,
        'П' => CY_PE,
        'У' => CY_U,
        'Ф' => CY_EF,
        'Ц' => CY_TSE,
        'Ч' => CY_CHE,
        'Ш' => CY_SHA,
        'Щ' => CY_SHCHA,
        'Ъ' => CY_HARD,
        'Ы' => CY_YERY,
        'Ь' => CY_SOFT,
        'Э' => CY_E,
        'Ю' => CY_YU,
        'Я' => CY_YA,

        '0' => D0,
        '1' => D1,
        '2' => D2,
        '3' => D3,
        '4' => D4,
        '5' => D5,
        '6' => D6,
        '7' => D7,
        '8' => D8,
        '9' => D9,

        '\'' | '\u{2019}' => APOS,
        ',' => COMMA,
        '.' => DOT,
        '!' => BANG,
        '?' => QUERY,
        '-' | '\u{2013}' | '\u{2014}' => DASH,
        ' ' => SPACE,
        '(' | '[' => LPAREN,
        ')' | ']' => RPAREN,
        ':' | ';' => COLON,
        '"' | '\u{201c}' | '\u{201d}' => QUOTE,

        _ => BLANK,
    }
}

/// The font's table: every Latin capital and digit is drawn with its own
/// glyph, each Cyrillic capital that looks like a Latin one (А В Е К М Н О
/// Р С Т Х, and З like 3) shares that glyph, the other Cyrillic capitals
/// have glyphs of their own, and the punctuation marks theirs.
pub proof fn lemma_glyph_table()
    ensures
        glyph_for('A') == A,
        glyph_for('А') == A,
        glyph_for('B') == B,
        glyph_for('C') == C,
        glyph_for('С') == C,
        glyph_for('D') == D,
        glyph_for('E') == E,
        glyph_for('Е') == E,
        glyph_for('F') == F,
        glyph_for('G') == G,
        glyph_for('H') == H,
        glyph_for('Н') == H,
        glyph_for('I') == I,
        glyph_for('J') == J,
        glyph_for('K') == K,
        glyph_for('К') == K,
        glyph_for('L') == L,
        glyph_for('M') == M,
        glyph_for('М') == M,
        glyph_for('N') == N,
        glyph_for('O') == O,
        glyph_for('О') == O,
        glyph_for('P') == P,
        glyph_for('Р') == P,
        glyph_for('Q') == Q,
        glyph_for('R') == R,
        glyph_for('S') == S,
        glyph_for('T') == T,
        glyph_for('Т') == T,
        glyph_for('U') == U,
        glyph_for('V') == V,
        glyph_for('W') == W,
        glyph_for('X') == X,
        glyph_for('Х') == X,
        glyph_for('Y') == Y,
        glyph_for('Z') == Z,
        glyph_for('В') == B,
        glyph_for('Б') == CY_BE,
        glyph_for('Г') == CY_GE,
        glyph_for('Д') == CY_DE,
        glyph_for('Ё') == CY_YO,
        glyph_for('Ж') == CY_ZHE,
        glyph_for('З') == D3,
        glyph_for('И') == CY_I,
        glyph_for('Й') == CY_IKR,
        glyph_for('Л') == CY_EL,
        glyph_for('П') == CY_PE,
        glyph_for('У') == CY_U,
        glyph_for('Ф') == CY_EF,
        glyph_for('Ц') == CY_TSE,
        glyph_for('Ч') == CY_CHE,
        glyph_for('Ш') == CY_SHA,
        glyph_for('Щ') == CY_SHCHA,
        glyph_for('Ъ') == CY_HARD,
        glyph_for('Ы') == CY_YERY,
        glyph_for('Ь') == CY_SOFT,
        glyph_for('Э') == CY_E,
        glyph_for('Ю') == CY_YU,
        glyph_for('Я') == CY_YA,
        glyph_for('0') == D0,
        glyph_for('1') == D1,
        glyph_for('2') == D2,
        glyph_for('3') == D3,
        glyph_for('4') == D4,
        glyph_for('5') == D5,
        glyph_for('6') == D6,
        glyph_for('7') == D7,
        glyph_for('8') == D8,
        glyph_for('9') == D9,
        glyph_for('\'') == APOS,
        glyph_for('\u{2019}') == APOS,
        glyph_for(',') == COMMA,
        glyph_for('.') == DOT,
        glyph_for('!') == BANG,
        glyph_for('?') == QUERY,
        glyph_for('-') == DASH,
        glyph_for('\u{2013}') == DASH,
        glyph_for('\u{2014}') == DASH,
        glyph_for(' ') == SPACE,
        glyph_for('(') == LPAREN,
        glyph_for('[') == LPAREN,
        glyph_for(')') == RPAREN,
        glyph_for(']') == RPAREN,
        glyph_for(':') == COLON,
        glyph_for(';') == COLON,
        glyph_for('"') == QUOTE,
        glyph_for('\u{201c}') == QUOTE,
        glyph_for('\u{201d}') == QUOTE,
{
}

/// A Latin capital or a digit.
pub open spec fn latin_or_digit(c: char) -> bool {
    ('A' <= c <= 'Z') || ('0' <= c <= '9')
}

/// No two Latin capitals or digits are drawn alike: each has a glyph that
/// differs from every other's in some pixel.
#[verifier::rlimit(100)]
pub proof fn lemma_latin_glyphs_distinct()
    ensures
        forall|c: char, d: char|
            latin_or_digit(c) && latin_or_digit(d) && c != d ==> #[trigger] glyph_for(c)
                != #[trigger] glyph_for(d),
{
    reveal_strlit("     #");
    reveal_strlit("    #");
    reveal_strlit("    # ");
    reveal_strlit("   #  ");
    reveal_strlit("   ##");
    reveal_strlit("  #  ");
    reveal_strlit("  #   ");
    reveal_strlit("  ##  ");
    reveal_strlit(" # ");
    reveal_strlit(" #    ");
    reveal_strlit(" #  # ");
    reveal_strlit(" ##  ");
    reveal_strlit(" ### ");
    reveal_strlit(" ### #");
    reveal_strlit(" #### ");
    reveal_strlit(" #####");
    reveal_strlit("#     ");
    reveal_strlit("#      #");
    reveal_strlit("#    #");
    reveal_strlit("#   #");
    reveal_strlit("#   # ");
    reveal_strlit("#   ##");
    reveal_strlit("#  #  ");
    reveal_strlit("#  # #");
    reveal_strlit("#  ##  #");
    reveal_strlit("#  ###");
    reveal_strlit("# #  ");
    reveal_strlit("# #   ");
    reveal_strlit("# #  #");
    reveal_strlit("# #  # #");
    reveal_strlit("##    ");
    reveal_strlit("##    ##");
    reveal_strlit("##   #");
    reveal_strlit("###");
    reveal_strlit("#####");
    reveal_strlit("##### ");
    reveal_strlit("######");
    assert(A[0]@[0] != B[0]@[0]);
    assert(A[0]@[1] != C[0]@[1]);
    assert(A[0]@[0] != D[0]@[0]);
    assert(A[0]@[0] != E[0]@[0]);
    assert(A[0]@[0] != F[0]@[0]);
    assert(A[0]@[1] != G[0]@[1]);
    assert(A[0]@[0] != H[0]@[0]);
    assert(A[0]@.len() != I[0]@.len());
    assert(A[0]@.len() != J[0]@.len());
    assert(A[0]@[0] != K[0]@[0]);
    assert(A[0]@[0] != L[0]@[0]);
    assert(A[0]@.len() != M[0]@.len());
    assert(A[0]@[0] != N[0]@[0]);
    assert(A[0]@[1] != O[0]@[1]);
    assert(A[0]@[0] != P[0]@[0]);
    assert(A[0]@[1] != Q[0]@[1]);
    assert(A[0]@[0] != R[0]@[0]);
    assert(A[0]@[1] != S[0]@[1]);
    assert(A[0]@.len() != T[0]@.len());
    assert(A[0]@[0] != U[0]@[0]);
    assert(A[0]@[0] != V[0]@[0]);
    assert(A[0]@.len() != W[0]@.len());
    assert(A[0]@[0] != X[0]@[0]);
    assert(A[0]@[0] != Y[0]@[0]);
    assert(A[0]@[0] != Z[0]@[0]);
    assert(A[0]@[1] != D0[0]@[1]);
    assert(A[0]@.len() != D1[0]@.len());
    assert(A[0]@[1] != D2[0]@[1]);
    assert(A[0]@[1] != D3[0]@[1]);
    assert(A[0]@[0] != D4[0]@[0]);
    assert(A[0]@[0] != D5[0]@[0]);
    assert(A[0]@[1] != D6[0]@[1]);
    assert(A[0]@[0] != D7[0]@[0]);
    assert(A[0]@[1] != D8[0]@[1]);
    assert(A[0]@[1] != D9[0]@[1]);
    assert(B[0]@[0] != C[0]@[0]);
    assert(B[4]@[1] != D[4]@[1]);
    assert(B[0]@[5] != E[0]@[5]);
    assert(B[0]@[5] != F[0]@[5]);
    assert(B[0]@[0] != G[0]@[0]);
    assert(B[0]@[1] != H[0]@[1]);
    assert(B[0]@.len() != I[0]@.len());
    assert(B[0]@.len() != J[0]@.len());
    assert(B[0]@[1] != K[0]@[1]);
    assert(B[0]@[1] != L[0]@[1]);
    assert(B[0]@.len() != M[0]@.len());
    assert(B[0]@[1] != N[0]@[1]);
    assert(B[0]@[0] != O[0]@[0]);
    assert(B[4]@[1] != P[4]@[1]);
    assert(B[0]@[0] != Q[0]@[0]);
    assert(B[4]@[1] != R[4]@[1]);
    assert(B[0]@[0] != S[0]@[0]);
    assert(B[0]@.len() != T[0]@.len());
    assert(B[0]@[1] != U[0]@[1]);
    assert(B[0]@[1] != V[0]@[1]);
    assert(B[0]@.len() != W[0]@.len());
    assert(B[0]@[1] != X[0]@[1]);
    assert(B[0]@[1] != Y[0]@[1]);
    assert(B[0]@[5] != Z[0]@[5]);
    assert(B[0]@[0] != D0[0]@[0]);
    assert(B[0]@.len() != D1[0]@.len());
    assert(B[0]@[0] != D2[0]@[0]);
    assert(B[0]@[0] != D3[0]@[0]);
    assert(B[0]@[1] != D4[0]@[1]);
    assert(B[0]@[5] != D5[0]@[5]);
    assert(B[0]@[0] != D6[0]@[0]);
    assert(B[0]@[5] != D7[0]@[5]);
    assert(B[0]@[0] != D8[0]@[0]);
    assert(B[0]@[0] != D9[0]@[0]);
    assert(C[0]@[0] != D[0]@[0]);
    assert(C[0]@[0] != E[0]@[0]);
    assert(C[0]@[0] != F[0]@[0]);
    assert(C[5]@[3] != G[5]@[3]);
    assert(C[0]@[0] != H[0]@[0]);
    assert(C[0]@.len() != I[0]@.len());
    assert(C[0]@.len() != J[0]@.len());
    assert(C[0]@[0] != K[0]@[0]);
    assert(C[0]@[0] != L[0]@[0]);
    assert(C[0]@.len() != M[0]@.len());
    assert(C[0]@[0] != N[0]@[0]);
    assert(C[2]@[5] != O[2]@[5]);
    assert(C[0]@[0] != P[0]@[0]);
    assert(C[2]@[5] != Q[2]@[5]);
    assert(C[0]@[0] != R[0]@[0]);
    assert(C[4]@[0] != S[4]@[0]);
    assert(C[0]@.len() != T[0]@.len());
    assert(C[0]@[0] != U[0]@[0]);
    assert(C[0]@[0] != V[0]@[0]);
    assert(C[0]@.len() != W[0]@.len());
    assert(C[0]@[0] != X[0]@[0]);
    assert(C[0]@[0] != Y[0]@[0]);
    assert(C[0]@[0] != Z[0]@[0]);
    assert(C[2]@[4] != D0[2]@[4]);
    assert(C[0]@.len() != D1[0]@.len());
    assert(C[2]@[0] != D2[2]@[0]);
    assert(C[2]@[0] != D3[2]@[0]);
    assert(C[0]@[0] != D4[0]@[0]);
    assert(C[0]@[0] != D5[0]@[0]);
    assert(C[4]@[1] != D6[4]@[1]);
    assert(C[0]@[0] != D7[0]@[0]);
    assert(C[2]@[5] != D8[2]@[5]);
    assert(C[2]@[5] != D9[2]@[5]);
    assert(D[0]@[5] != E[0]@[5]);
    assert(D[0]@[5] != F[0]@[5]);
    assert(D[0]@[0] != G[0]@[0]);
    assert(D[0]@[1] != H[0]@[1]);
    assert(D[0]@.len() != I[0]@.len());
    assert(D[0]@.len() != J[0]@.len());
    assert(D[0]@[1] != K[0]@[1]);
    assert(D[0]@[1] != L[0]@[1]);
    assert(D[0]@.len() != M[0]@.len());
    assert(D[0]@[1] != N[0]@[1]);
    assert(D[0]@[0] != O[0]@[0]);
    assert(D[5]@[1] != P[5]@[1]);
    assert(D[0]@[0] != Q[0]@[0]);
    assert(D[5]@[1] != R[5]@[1]);
    assert(D[0]@[0] != S[0]@[0]);
    assert(D[0]@.len() != T[0]@.len());
    assert(D[0]@[1] != U[0]@[1]);
    assert(D[0]@[1] != V[0]@[1]);
    assert(D[0]@.len() != W[0]@.len());
    assert(D[0]@[1] != X[0]@[1]);
    assert(D[0]@[1] != Y[0]@[1]);
    assert(D[0]@[5] != Z[0]@[5]);
    assert(D[0]@[0] != D0[0]@[0]);
    assert(D[0]@.len() != D1[0]@.len());
    assert(D[0]@[0] != D2[0]@[0]);
    assert(D[0]@[0] != D3[0]@[0]);
    assert(D[0]@[1] != D4[0]@[1]);
    assert(D[0]@[5] != D5[0]@[5]);
    assert(D[0]@[0] != D6[0]@[0]);
    assert(D[0]@[5] != D7[0]@[5]);
    assert(D[0]@[0] != D8[0]@[0]);
    assert(D[0]@[0] != D9[0]@[0]);
    assert(E[9]@[1] != F[9]@[1]);
    assert(E[0]@[0] != G[0]@[0]);
    assert(E[0]@[1] != H[0]@[1]);
    assert(E[0]@.len() != I[0]@.len());
    assert(E[0]@.len() != J[0]@.len());
    assert(E[0]@[1] != K[0]@[1]);
    assert(E[0]@[1] != L[0]@[1]);
    assert(E[0]@.len() != M[0]@.len());
    assert(E[0]@[1] != N[0]@[1]);
    assert(E[0]@[0] != O[0]@[0]);
    assert(E[0]@[5] != P[0]@[5]);
    assert(E[0]@[0] != Q[0]@[0]);
    assert(E[0]@[5] != R[0]@[5]);
    assert(E[0]@[0] != S[0]@[0]);
    assert(E[0]@.len() != T[0]@.len());
    assert(E[0]@[1] != U[0]@[1]);
    assert(E[0]@[1] != V[0]@[1]);
    assert(E[0]@.len() != W[0]@.len());
    assert(E[0]@[1] != X[0]@[1]);
    assert(E[0]@[1] != Y[0]@[1]);
    assert(E[1]@[0] != Z[1]@[0]);
    assert(E[0]@[0] != D0[0]@[0]);
    assert(E[0]@.len() != D1[0]@.len());
    assert(E[0]@[0] != D2[0]@[0]);
    assert(E[0]@[0] != D3[0]@[0]);
    assert(E[0]@[1] != D4[0]@[1]);
    assert(E[5]@[0] != D5[5]@[0]);
    assert(E[0]@[0] != D6[0]@[0]);
    assert(E[1]@[0] != D7[1]@[0]);
    assert(E[0]@[0] != D8[0]@[0]);
    assert(E[0]@[0] != D9[0]@[0]);
    assert(F[0]@[0] != G[0]@[0]);
    assert(F[0]@[1] != H[0]@[1]);
    assert(F[0]@.len() != I[0]@.len());
    assert(F[0]@.len() != J[0]@.len());
    assert(F[0]@[1] != K[0]@[1]);
    assert(F[0]@[1] != L[0]@[1]);
    assert(F[0]@.len() != M[0]@.len());
    assert(F[0]@[1] != N[0]@[1]);
    assert(F[0]@[0] != O[0]@[0]);
    assert(F[0]@[5] != P[0]@[5]);
    assert(F[0]@[0] != Q[0]@[0]);
    assert(F[0]@[5] != R[0]@[5]);
    assert(F[0]@[0] != S[0]@[0]);
    assert(F[0]@.len() != T[0]@.len());
    assert(F[0]@[1] != U[0]@[1]);
    assert(F[0]@[1] != V[0]@[1]);
    assert(F[0]@.len() != W[0]@.len());
    assert(F[0]@[1] != X[0]@[1]);
    assert(F[0]@[1] != Y[0]@[1]);
    assert(F[1]@[0] != Z[1]@[0]);
    assert(F[0]@[0] != D0[0]@[0]);
    assert(F[0]@.len() != D1[0]@.len());
    assert(F[0]@[0] != D2[0]@[0]);
    assert(F[0]@[0] != D3[0]@[0]);
    assert(F[0]@[1] != D4[0]@[1]);
    assert(F[5]@[0] != D5[5]@[0]);
    assert(F[0]@[0] != D6[0]@[0]);
    assert(F[1]@[0] != D7[1]@[0]);
    assert(F[0]@[0] != D8[0]@[0]);
    assert(F[0]@[0] != D9[0]@[0]);
    assert(G[0]@[0] != H[0]@[0]);
    assert(G[0]@.len() != I[0]@.len());
    assert(G[0]@.len() != J[0]@.len());
    assert(G[0]@[0] != K[0]@[0]);
    assert(G[0]@[0] != L[0]@[0]);
    assert(G[0]@.len() != M[0]@.len());
    assert(G[0]@[0] != N[0]@[0]);
    assert(G[2]@[5] != O[2]@[5]);
    assert(G[0]@[0] != P[0]@[0]);
    assert(G[2]@[5] != Q[2]@[5]);
    assert(G[0]@[0] != R[0]@[0]);
    assert(G[4]@[0] != S[4]@[0]);
    assert(G[0]@.len() != T[0]@.len());
    assert(G[0]@[0] != U[0]@[0]);
    assert(G[0]@[0] != V[0]@[0]);
    assert(G[0]@.len() != W[0]@.len());
    assert(G[0]@[0] != X[0]@[0]);
    assert(G[0]@[0] != Y[0]@[0]);
    assert(G[0]@[0] != Z[0]@[0]);
    assert(G[2]@[4] != D0[2]@[4]);
    assert(G[0]@.len() != D1[0]@.len());
    assert(G[2]@[0] != D2[2]@[0]);
    assert(G[2]@[0] != D3[2]@[0]);
    assert(G[0]@[0] != D4[0]@[0]);
    assert(G[0]@[0] != D5[0]@[0]);
    assert(G[4]@[1] != D6[4]@[1]);
    assert(G[0]@[0] != D7[0]@[0]);
    assert(G[2]@[5] != D8[2]@[5]);
    assert(G[2]@[5] != D9[2]@[5]);
    assert(H[0]@.len() != I[0]@.len());
    assert(H[0]@.len() != J[0]@.len());
    assert(H[1]@[4] != K[1]@[4]);
    assert(H[0]@[5] != L[0]@[5]);
    assert(H[0]@.len() != M[0]@.len());
    assert(H[1]@[1] != N[1]@[1]);
    assert(H[0]@[0] != O[0]@[0]);
    assert(H[0]@[1] != P[0]@[1]);
    assert(H[0]@[0] != Q[0]@[0]);
    assert(H[0]@[1] != R[0]@[1]);
    assert(H[0]@[0] != S[0]@[0]);
    assert(H[0]@.len() != T[0]@.len());
    assert(H[4]@[1] != U[4]@[1]);
    assert(H[4]@[0] != V[4]@[0]);
    assert(H[0]@.len() != W[0]@.len());
    assert(H[2]@[0] != X[2]@[0]);
    assert(H[2]@[0] != Y[2]@[0]);
    assert(H[0]@[1] != Z[0]@[1]);
    assert(H[0]@[0] != D0[0]@[0]);
    assert(H[0]@.len() != D1[0]@.len());
    assert(H[0]@[0] != D2[0]@[0]);
    assert(H[0]@[0] != D3[0]@[0]);
    assert(H[4]@[1] != D4[4]@[1]);
    assert(H[0]@[1] != D5[0]@[1]);
    assert(H[0]@[0] != D6[0]@[0]);
    assert(H[0]@[1] != D7[0]@[1]);
    assert(H[0]@[0] != D8[0]@[0]);
    assert(H[0]@[0] != D9[0]@[0]);
    assert(I[0]@.len() != J[0]@.len());
    assert(I[0]@.len() != K[0]@.len());
    assert(I[0]@.len() != L[0]@.len());
    assert(I[0]@.len() != M[0]@.len());
    assert(I[0]@.len() != N[0]@.len());
    assert(I[0]@.len() != O[0]@.len());
    assert(I[0]@.len() != P[0]@.len());
    assert(I[0]@.len() != Q[0]@.len());
    assert(I[0]@.len() != R[0]@.len());
    assert(I[0]@.len() != S[0]@.len());
    assert(I[0]@.len() != T[0]@.len());
    assert(I[0]@.len() != U[0]@.len());
    assert(I[0]@.len() != V[0]@.len());
    assert(I[0]@.len() != W[0]@.len());
    assert(I[0]@.len() != X[0]@.len());
    assert(I[0]@.len() != Y[0]@.len());
    assert(I[0]@.len() != Z[0]@.len());
    assert(I[0]@.len() != D0[0]@.len());
    assert(I[0]@.len() != D1[0]@.len());
    assert(I[0]@.len() != D2[0]@.len());
    assert(I[0]@.len() != D3[0]@.len());
    assert(I[0]@.len() != D4[0]@.len());
    assert(I[0]@.len() != D5[0]@.len());
    assert(I[0]@.len() != D6[0]@.len());
    assert(I[0]@.len() != D7[0]@.len());
    assert(I[0]@.len() != D8[0]@.len());
    assert(I[0]@.len() != D9[0]@.len());
    assert(J[0]@.len() != K[0]@.len());
    assert(J[0]@.len() != L[0]@.len());
    assert(J[0]@.len() != M[0]@.len());
    assert(J[0]@.len() != N[0]@.len());
    assert(J[0]@.len() != O[0]@.len());
    assert(J[0]@.len() != P[0]@.len());
    assert(J[0]@.len() != Q[0]@.len());
    assert(J[0]@.len() != R[0]@.len());
    assert(J[0]@.len() != S[0]@.len());
    assert(J[0]@[0] != T[0]@[0]);
    assert(J[0]@.len() != U[0]@.len());
    assert(J[0]@.len() != V[0]@.len());
    assert(J[0]@.len() != W[0]@.len());
    assert(J[0]@.len() != X[0]@.len());
    assert(J[0]@.len() != Y[0]@.len());
    assert(J[0]@.len() != Z[0]@.len());
    assert(J[0]@.len() != D0[0]@.len());
    assert(J[0]@[2] != D1[0]@[2]);
    assert(J[0]@.len() != D2[0]@.len());
    assert(J[0]@.len() != D3[0]@.len());
    assert(J[0]@.len() != D4[0]@.len());
    assert(J[0]@.len() != D5[0]@.len());
    assert(J[0]@.len() != D6[0]@.len());
    assert(J[0]@.len() != D7[0]@.len());
    assert(J[0]@.len() != D8[0]@.len());
    assert(J[0]@.len() != D9[0]@.len());
    assert(K[0]@[5] != L[0]@[5]);
    assert(K[0]@.len() != M[0]@.len());
    assert(K[1]@[1] != N[1]@[1]);
    assert(K[0]@[0] != O[0]@[0]);
    assert(K[0]@[1] != P[0]@[1]);
    assert(K[0]@[0] != Q[0]@[0]);
    assert(K[0]@[1] != R[0]@[1]);
    assert(K[0]@[0] != S[0]@[0]);
    assert(K[0]@.len() != T[0]@.len());
    assert(K[1]@[4] != U[1]@[4]);
    assert(K[1]@[4] != V[1]@[4]);
    assert(K[0]@.len() != W[0]@.len());
    assert(K[1]@[4] != X[1]@[4]);
    assert(K[1]@[4] != Y[1]@[4]);
    assert(K[0]@[1] != Z[0]@[1]);
    assert(K[0]@[0] != D0[0]@[0]);
    assert(K[0]@.len() != D1[0]@.len());
    assert(K[0]@[0] != D2[0]@[0]);
    assert(K[0]@[0] != D3[0]@[0]);
    assert(K[1]@[4] != D4[1]@[4]);
    assert(K[0]@[1] != D5[0]@[1]);
    assert(K[0]@[0] != D6[0]@[0]);
    assert(K[0]@[1] != D7[0]@[1]);
    assert(K[0]@[0] != D8[0]@[0]);
    assert(K[0]@[0] != D9[0]@[0]);
    assert(L[0]@.len() != M[0]@.len());
    assert(L[0]@[5] != N[0]@[5]);
    assert(L[0]@[0] != O[0]@[0]);
    assert(L[0]@[1] != P[0]@[1]);
    assert(L[0]@[0] != Q[0]@[0]);
    assert(L[0]@[1] != R[0]@[1]);
    assert(L[0]@[0] != S[0]@[0]);
    assert(L[0]@.len() != T[0]@.len());
    assert(L[0]@[5] != U[0]@[5]);
    assert(L[0]@[5] != V[0]@[5]);
    assert(L[0]@.len() != W[0]@.len());
    assert(L[0]@[5] != X[0]@[5]);
    assert(L[0]@[5] != Y[0]@[5]);
    assert(L[0]@[1] != Z[0]@[1]);
    assert(L[0]@[0] != D0[0]@[0]);
    assert(L[0]@.len() != D1[0]@.len());
    assert(L[0]@[0] != D2[0]@[0]);
    assert(L[0]@[0] != D3[0]@[0]);
    assert(L[0]@[5] != D4[0]@[5]);
    assert(L[0]@[1] != D5[0]@[1]);
    assert(L[0]@[0] != D6[0]@[0]);
    assert(L[0]@[1] != D7[0]@[1]);
    assert(L[0]@[0] != D8[0]@[0]);
    assert(L[0]@[0] != D9[0]@[0]);
    assert(M[0]@.len() != N[0]@.len());
    assert(M[0]@.len() != O[0]@.len());
    assert(M[0]@.len() != P[0]@.len());
    assert(M[0]@.len() != Q[0]@.len());
    assert(M[0]@.len() != R[0]@.len());
    assert(M[0]@.len() != S[0]@.len());
    assert(M[0]@.len() != T[0]@.len());
    assert(M[0]@.len() != U[0]@.len());
    assert(M[0]@.len() != V[0]@.len());
    assert(M[1]@[1] != W[1]@[1]);
    assert(M[0]@.len() != X[0]@.len());
    assert(M[0]@.len() != Y[0]@.len());
    assert(M[0]@.len() != Z[0]@.len());
    assert(M[0]@.len() != D0[0]@.len());
    assert(M[0]@.len() != D1[0]@.len());
    assert(M[0]@.len() != D2[0]@.len());
    assert(M[0]@.len() != D3[0]@.len());
    assert(M[0]@.len() != D4[0]@.len());
    assert(M[0]@.len() != D5[0]@.len());
    assert(M[0]@.len() != D6[0]@.len());
    assert(M[0]@.len() != D7[0]@.len());
    assert(M[0]@.len() != D8[0]@.len());
    assert(M[0]@.len() != D9[0]@.len());
    assert(N[0]@[0] != O[0]@[0]);
    assert(N[0]@[1] != P[0]@[1]);
    assert(N[0]@[0] != Q[0]@[0]);
    assert(N[0]@[1] != R[0]@[1]);
    assert(N[0]@[0] != S[0]@[0]);
    assert(N[0]@.len() != T[0]@.len());
    assert(N[1]@[1] != U[1]@[1]);
    assert(N[1]@[1] != V[1]@[1]);
    assert(N[0]@.len() != W[0]@.len());
    assert(N[1]@[1] != X[1]@[1]);
    assert(N[1]@[1] != Y[1]@[1]);
    assert(N[0]@[1] != Z[0]@[1]);
    assert(N[0]@[0] != D0[0]@[0]);
    assert(N[0]@.len() != D1[0]@.len());
    assert(N[0]@[0] != D2[0]@[0]);
    assert(N[0]@[0] != D3[0]@[0]);
    assert(N[1]@[1] != D4[1]@[1]);
    assert(N[0]@[1] != D5[0]@[1]);
    assert(N[0]@[0] != D6[0]@[0]);
    assert(N[0]@[1] != D7[0]@[1]);
    assert(N[0]@[0] != D8[0]@[0]);
    assert(N[0]@[0] != D9[0]@[0]);
    assert(O[0]@[0] != P[0]@[0]);
    assert(O[7]@[3] != Q[7]@[3]);
    assert(O[0]@[0] != R[0]@[0]);
    assert(O[2]@[5] != S[2]@[5]);
    assert(O[0]@.len() != T[0]@.len());
    assert(O[0]@[0] != U[0]@[0]);
    assert(O[0]@[0] != V[0]@[0]);
    assert(O[0]@.len() != W[0]@.len());
    assert(O[0]@[0] != X[0]@[0]);
    assert(O[0]@[0] != Y[0]@[0]);
    assert(O[0]@[0] != Z[0]@[0]);
    assert(O[2]@[4] != D0[2]@[4]);
    assert(O[0]@.len() != D1[0]@.len());
    assert(O[2]@[0] != D2[2]@[0]);
    assert(O[2]@[0] != D3[2]@[0]);
    assert(O[0]@[0] != D4[0]@[0]);
    assert(O[0]@[0] != D5[0]@[0]);
    assert(O[2]@[5] != D6[2]@[5]);
    assert(O[0]@[0] != D7[0]@[0]);
    assert(O[4]@[0] != D8[4]@[0]);
    assert(O[4]@[0] != D9[4]@[0]);
    assert(P[0]@[0] != Q[0]@[0]);
    assert(P[6]@[3] != R[6]@[3]);
    assert(P[0]@[0] != S[0]@[0]);
    assert(P[0]@.len() != T[0]@.len());
    assert(P[0]@[1] != U[0]@[1]);
    assert(P[0]@[1] != V[0]@[1]);
    assert(P[0]@.len() != W[0]@.len());
    assert(P[0]@[1] != X[0]@[1]);
    assert(P[0]@[1] != Y[0]@[1]);
    assert(P[0]@[5] != Z[0]@[5]);
    assert(P[0]@[0] != D0[0]@[0]);
    assert(P[0]@.len() != D1[0]@.len());
    assert(P[0]@[0] != D2[0]@[0]);
    assert(P[0]@[0] != D3[0]@[0]);
    assert(P[0]@[1] != D4[0]@[1]);
    assert(P[0]@[5] != D5[0]@[5]);
    assert(P[0]@[0] != D6[0]@[0]);
    assert(P[0]@[5] != D7[0]@[5]);
    assert(P[0]@[0] != D8[0]@[0]);
    assert(P[0]@[0] != D9[0]@[0]);
    assert(Q[0]@[0] != R[0]@[0]);
    assert(Q[2]@[5] != S[2]@[5]);
    assert(Q[0]@.len() != T[0]@.len());
    assert(Q[0]@[0] != U[0]@[0]);
    assert(Q[0]@[0] != V[0]@[0]);
    assert(Q[0]@.len() != W[0]@.len());
    assert(Q[0]@[0] != X[0]@[0]);
    assert(Q[0]@[0] != Y[0]@[0]);
    assert(Q[0]@[0] != Z[0]@[0]);
    assert(Q[2]@[4] != D0[2]@[4]);
    assert(Q[0]@.len() != D1[0]@.len());
    assert(Q[2]@[0] != D2[2]@[0]);
    assert(Q[2]@[0] != D3[2]@[0]);
    assert(Q[0]@[0] != D4[0]@[0]);
    assert(Q[0]@[0] != D5[0]@[0]);
    assert(Q[2]@[5] != D6[2]@[5]);
    assert(Q[0]@[0] != D7[0]@[0]);
    assert(Q[4]@[0] != D8[4]@[0]);
    assert(Q[4]@[0] != D9[4]@[0]);
    assert(R[0]@[0] != S[0]@[0]);
    assert(R[0]@.len() != T[0]@.len());
    assert(R[0]@[1] != U[0]@[1]);
    assert(R[0]@[1] != V[0]@[1]);
    assert(R[0]@.len() != W[0]@.len());
    assert(R[0]@[1] != X[0]@[1]);
    assert(R[0]@[1] != Y[0]@[1]);
    assert(R[0]@[5] != Z[0]@[5]);
    assert(R[0]@[0] != D0[0]@[0]);
    assert(R[0]@.len() != D1[0]@.len());
    assert(R[0]@[0] != D2[0]@[0]);
    assert(R[0]@[0] != D3[0]@[0]);
    assert(R[0]@[1] != D4[0]@[1]);
    assert(R[0]@[5] != D5[0]@[5]);
    assert(R[0]@[0] != D6[0]@[0]);
    assert(R[0]@[5] != D7[0]@[5]);
    assert(R[0]@[0] != D8[0]@[0]);
    assert(R[0]@[0] != D9[0]@[0]);
    assert(S[0]@.len() != T[0]@.len());
    assert(S[0]@[0] != U[0]@[0]);
    assert(S[0]@[0] != V[0]@[0]);
    assert(S[0]@.len() != W[0]@.len());
    assert(S[0]@[0] != X[0]@[0]);
    assert(S[0]@[0] != Y[0]@[0]);
    assert(S[0]@[0] != Z[0]@[0]);
    assert(S[2]@[4] != D0[2]@[4]);
    assert(S[0]@.len() != D1[0]@.len());
    assert(S[2]@[0] != D2[2]@[0]);
    assert(S[2]@[0] != D3[2]@[0]);
    assert(S[0]@[0] != D4[0]@[0]);
    assert(S[0]@[0] != D5[0]@[0]);
    assert(S[4]@[0] != D6[4]@[0]);
    assert(S[0]@[0] != D7[0]@[0]);
    assert(S[2]@[5] != D8[2]@[5]);
    assert(S[2]@[5] != D9[2]@[5]);
    assert(T[0]@.len() != U[0]@.len());
    assert(T[0]@.len() != V[0]@.len());
    assert(T[0]@.len() != W[0]@.len());
    assert(T[0]@.len() != X[0]@.len());
    assert(T[0]@.len() != Y[0]@.len());
    assert(T[0]@.len() != Z[0]@.len());
    assert(T[0]@.len() != D0[0]@.len());
    assert(T[0]@[0] != D1[0]@[0]);
    assert(T[0]@.len() != D2[0]@.len());
    assert(T[0]@.len() != D3[0]@.len());
    assert(T[0]@.len() != D4[0]@.len());
    assert(T[0]@.len() != D5[0]@.len());
    assert(T[0]@.len() != D6[0]@.len());
    assert(T[0]@.len() != D7[0]@.len());
    assert(T[0]@.len() != D8[0]@.len());
    assert(T[0]@.len() != D9[0]@.len());
    assert(U[4]@[0] != V[4]@[0]);
    assert(U[0]@.len() != W[0]@.len());
    assert(U[2]@[0] != X[2]@[0]);
    assert(U[2]@[0] != Y[2]@[0]);
    assert(U[0]@[1] != Z[0]@[1]);
    assert(U[0]@[0] != D0[0]@[0]);
    assert(U[0]@.len() != D1[0]@.len());
    assert(U[0]@[0] != D2[0]@[0]);
    assert(U[0]@[0] != D3[0]@[0]);
    assert(U[5]@[1] != D4[5]@[1]);
    assert(U[0]@[1] != D5[0]@[1]);
    assert(U[0]@[0] != D6[0]@[0]);
    assert(U[0]@[1] != D7[0]@[1]);
    assert(U[0]@[0] != D8[0]@[0]);
    assert(U[0]@[0] != D9[0]@[0]);
    assert(V[0]@.len() != W[0]@.len());
    assert(V[2]@[0] != X[2]@[0]);
    assert(V[2]@[0] != Y[2]@[0]);
    assert(V[0]@[1] != Z[0]@[1]);
    assert(V[0]@[0] != D0[0]@[0]);
    assert(V[0]@.len() != D1[0]@.len());
    assert(V[0]@[0] != D2[0]@[0]);
    assert(V[0]@[0] != D3[0]@[0]);
    assert(V[4]@[0] != D4[4]@[0]);
    assert(V[0]@[1] != D5[0]@[1]);
    assert(V[0]@[0] != D6[0]@[0]);
    assert(V[0]@[1] != D7[0]@[1]);
    assert(V[0]@[0] != D8[0]@[0]);
    assert(V[0]@[0] != D9[0]@[0]);
    assert(W[0]@.len() != X[0]@.len());
    assert(W[0]@.len() != Y[0]@.len());
    assert(W[0]@.len() != Z[0]@.len());
    assert(W[0]@.len() != D0[0]@.len());
    assert(W[0]@.len() != D1[0]@.len());
    assert(W[0]@.len() != D2[0]@.len());
    assert(W[0]@.len() != D3[0]@.len());
    assert(W[0]@.len() != D4[0]@.len());
    assert(W[0]@.len() != D5[0]@.len());
    assert(W[0]@.len() != D6[0]@.len());
    assert(W[0]@.len() != D7[0]@.len());
    assert(W[0]@.len() != D8[0]@.len());
    assert(W[0]@.len() != D9[0]@.len());
    assert(X[6]@[1] != Y[6]@[1]);
    assert(X[0]@[1] != Z[0]@[1]);
    assert(X[0]@[0] != D0[0]@[0]);
    assert(X[0]@.len() != D1[0]@.len());
    assert(X[0]@[0] != D2[0]@[0]);
    assert(X[0]@[0] != D3[0]@[0]);
    assert(X[2]@[0] != D4[2]@[0]);
    assert(X[0]@[1] != D5[0]@[1]);
    assert(X[0]@[0] != D6[0]@[0]);
    assert(X[0]@[1] != D7[0]@[1]);
    assert(X[0]@[0] != D8[0]@[0]);
    assert(X[0]@[0] != D9[0]@[0]);
    assert(Y[0]@[1] != Z[0]@[1]);
    assert(Y[0]@[0] != D0[0]@[0]);
    assert(Y[0]@.len() != D1[0]@.len());
    assert(Y[0]@[0] != D2[0]@[0]);
    assert(Y[0]@[0] != D3[0]@[0]);
    assert(Y[2]@[0] != D4[2]@[0]);
    assert(Y[0]@[1] != D5[0]@[1]);
    assert(Y[0]@[0] != D6[0]@[0]);
    assert(Y[0]@[1] != D7[0]@[1]);
    assert(Y[0]@[0] != D8[0]@[0]);
    assert(Y[0]@[0] != D9[0]@[0]);
    assert(Z[0]@[0] != D0[0]@[0]);
    assert(Z[0]@.len() != D1[0]@.len());
    assert(Z[0]@[0] != D2[0]@[0]);
    assert(Z[0]@[0] != D3[0]@[0]);
    assert(Z[0]@[1] != D4[0]@[1]);
    assert(Z[1]@[0] != D5[1]@[0]);
    assert(Z[0]@[0] != D6[0]@[0]);
    assert(Z[5]@[2] != D7[5]@[2]);
    assert(Z[0]@[0] != D8[0]@[0]);
    assert(Z[0]@[0] != D9[0]@[0]);
    assert(D0[0]@.len() != D1[0]@.len());
    assert(D0[2]@[0] != D2[2]@[0]);
    assert(D0[2]@[0] != D3[2]@[0]);
    assert(D0[0]@[0] != D4[0]@[0]);
    assert(D0[0]@[0] != D5[0]@[0]);
    assert(D0[2]@[4] != D6[2]@[4]);
    assert(D0[0]@[0] != D7[0]@[0]);
    assert(D0[2]@[4] != D8[2]@[4]);
    assert(D0[2]@[4] != D9[2]@[4]);
    assert(D1[0]@.len() != D2[0]@.len());
    assert(D1[0]@.len() != D3[0]@.len());
    assert(D1[0]@.len() != D4[0]@.len());
    assert(D1[0]@.len() != D5[0]@.len());
    assert(D1[0]@.len() != D6[0]@.len());
    assert(D1[0]@.len() != D7[0]@.len());
    assert(D1[0]@.len() != D8[0]@.len());
    assert(D1[0]@.len() != D9[0]@.len());
    assert(D2[4]@[1] != D3[4]@[1]);
    assert(D2[0]@[0] != D4[0]@[0]);
    assert(D2[0]@[0] != D5[0]@[0]);
    assert(D2[2]@[0] != D6[2]@[0]);
    assert(D2[0]@[0] != D7[0]@[0]);
    assert(D2[2]@[0] != D8[2]@[0]);
    assert(D2[2]@[0] != D9[2]@[0]);
    assert(D3[0]@[0] != D4[0]@[0]);
    assert(D3[0]@[0] != D5[0]@[0]);
    assert(D3[2]@[0] != D6[2]@[0]);
    assert(D3[0]@[0] != D7[0]@[0]);
    assert(D3[2]@[0] != D8[2]@[0]);
    assert(D3[2]@[0] != D9[2]@[0]);
    assert(D4[0]@[1] != D5[0]@[1]);
    assert(D4[0]@[0] != D6[0]@[0]);
    assert(D4[0]@[1] != D7[0]@[1]);
    assert(D4[0]@[0] != D8[0]@[0]);
    assert(D4[0]@[0] != D9[0]@[0]);
    assert(D5[0]@[0] != D6[0]@[0]);
    assert(D5[1]@[0] != D7[1]@[0]);
    assert(D5[0]@[0] != D8[0]@[0]);
    assert(D5[0]@[0] != D9[0]@[0]);
    assert(D6[0]@[0] != D7[0]@[0]);
    assert(D6[2]@[5] != D8[2]@[5]);
    assert(D6[2]@[5] != D9[2]@[5]);
    assert(D7[0]@[0] != D8[0]@[0]);
    assert(D7[0]@[0] != D9[0]@[0]);
    assert(D8[4]@[5] != D9[4]@[5]);
}

/// The character whose glyph stands for `c`: the first char of its
/// upper-case mapping.
pub open spec fn glyph_key(c: char) -> char {
    first_uppercase_char(c)
}

/// The glyph drawn for a character that has already been upper-cased;
/// characters the font does not cover get a blank glyph.
pub fn glyph_upper(upper: char) -> (g: &'static Glyph)
    ensures
        *g == glyph_for(upper),
{
    match upper {

        'A' | 'А' => &A,
        'B' => &B,
        'C' | 'С' => &C,
        'D' => &D,
        'E' | 'Е' => &E,
        'F' => &F,
        'G' => &G,
        'H' | 'Н' => &H,
        'I' => &I,
        'J' => &J,
        'K' | 'К' => &K,
        'L' => &L,
        'M' | 'М' => &M,
        'N' => &N,
        'O' | 'О' => &O,
        'P' | 'Р' => &P,
        'Q' => &Q,
        'R' => &R,
        'S' => &S,
        'T' | 'Т' => &T,
        'U' => &U,
        'V' => &V,
        'W' => &W,
        'X' | 'Х' => &X,
        'Y' => &Y,
        'Z' => &Z,

        'В' => &B,
        'Б' => &CY_BE,
        'Г' => &CY_GE,
        'Д' => &CY_DE,
        'Ё' => &CY_YO,
        'Ж' => &CY_ZHE,
        'З' => &D3,
        'И' => &CY_I,
        'Й' => &CY_IKR,
        'Л' => &CY_EL,
        'П' => &CY_PE,
        'У' => &CY_U,
        'Ф' => &CY_EF,
        'Ц' => &CY_TSE,
        'Ч' => &CY_CHE,
        'Ш' => &CY_SHA,
        'Щ' => &CY_SHCHA,
        'Ъ' => &CY_HARD,
        'Ы' => &CY_YERY,
        'Ь' => &CY_SOFT,
        'Э' => &CY_E,
        'Ю' => &CY_YU,
        'Я' => &CY_YA,

        '0' => &D0,
        '1' => &D1,
        '2' => &D2,
        '3' => &D3,
        '4' => &D4,
        '5' => &D5,
        '6' => &D6,
        '7' => &D7,
        '8' => &D8,
        '9' => &D9,

        '\'' | '\u{2019}' => &APOS,
        ',' => &COMMA,
        '.' => &DOT,
        '!' => &BANG,
        '?' => &QUERY,
        '-' | '\u{2013}' | '\u{2014}' => &DASH,
        ' ' => &SPACE,
        '(' | '[' => &LPAREN,
        ')' | ']' => &RPAREN,
        ':' | ';' => &COLON,
        '"' | '\u{201c}' | '\u{201d}' => &QUOTE,

        _ => &BLANK,
    }
}

/// Picks the glyph for `c`, case-insensitively; characters the font does not
/// cover get a blank glyph.
pub fn glyph(c: char) -> (g: &'static Glyph)
    ensures
        *g == glyph_for(glyph_key(c)),
{
    glyph_upper(first_uppercase(c).unwrap_or(c))
}
/// The font is case-insensitive: a character draws as its upper-case form
/// does, for every character whose upper-case form is its own upper-case
/// form (as for the Latin and Cyrillic letters the font covers). That
/// upper-case form draws as the table gives it.
pub proof fn lemma_glyph_ignores_case(c: char)
    requires
        first_uppercase_char(first_uppercase_char(c)) == first_uppercase_char(c),
    ensures
        glyph_for(glyph_key(c)) == glyph_for(glyph_key(first_uppercase_char(c))),
        glyph_for(glyph_key(first_uppercase_char(c))) == glyph_for(first_uppercase_char(c)),
{
}

/// A pixel that holds ink.
pub open spec fn inked(row: Seq<char>, x: int) -> bool {
    0 <= x < row.len() && row[x] != ' '
}

/// The half-block character for one cell: the upper pixel becomes `▀`,
/// the lower `▄`, both `█`, neither a space.
pub open spec fn shade(top: bool, bottom: bool) -> char {
    if top && bottom {
        '█'
    } else if top {
        '▀'
    } else if bottom {
        '▄'
    } else {
        ' '
    }
}

/// Two pixel rows packed into one terminal row, as wide as the wider of them.
pub open spec fn pack(top: Seq<char>, bottom: Seq<char>) -> Seq<char> {
    let width = if top.len() >= bottom.len() { top.len() } else { bottom.len() };
    Seq::new(width, |x: int| shade(inked(top, x), inked(bottom, x)))
}

/// Terminal row `r` of the glyph that stands for `c`.
pub open spec fn cell(c: char, r: int) -> Seq<char> {
    let g = glyph_for(glyph_key(c));
    pack(g[2 * r]@, g[2 * r + 1]@)
}

/// Terminal row `r` of a whole text: the cells of its characters, one
/// blank column between neighbours.
pub open spec fn render_row(cs: Seq<char>, r: int) -> Seq<char>
    decreases cs.len(),
{
    if cs.len() == 0 {
        Seq::empty()
    } else if cs.len() == 1 {
        cell(cs[0], r)
    } else {
        render_row(cs.drop_last(), r) + seq![' '] + cell(cs.last(), r)
    }
}

/// Columns taken by the glyph that stands for `c`.
pub open spec fn glyph_width(c: char) -> nat {
    glyph_for(glyph_key(c))[0]@.len()
}

/// Columns taken by a rendered text: every glyph plus one gap between
/// neighbours.
pub open spec fn text_width(cs: Seq<char>) -> nat
    decreases cs.len(),
{
    if cs.len() == 0 {
        0
    } else if cs.len() == 1 {
        glyph_width(cs[0])
    } else {
        text_width(cs.drop_last()) + 1 + glyph_width(cs.last())
    }
}

/// All pixel rows of a glyph have the same width.
pub open spec fn rectangular(g: Glyph) -> bool {
    forall|i: int| 0 <= i < PX_ROWS ==> (#[trigger] g[i])@.len() == g[0]@.len()
}

/// Every glyph of the font is rectangular, so that packing two pixel rows
/// into one terminal row never shears a letter apart.
pub proof fn lemma_every_glyph_rectangular(upper: char)
    ensures
        rectangular(glyph_for(upper)),
{
        reveal_strlit("  ");
        reveal_strlit("   ");
        reveal_strlit("    ");
        reveal_strlit("     ");
        reveal_strlit("      ");
        reveal_strlit("        ##");
        reveal_strlit("      #");
        reveal_strlit("     #");
        reveal_strlit("    #");
        reveal_strlit("    # ");
        reveal_strlit("   #  ");
        reveal_strlit("   #   ");
        reveal_strlit("   # #");
        reveal_strlit("   ##");
        reveal_strlit("   ## ");
        reveal_strlit("  #");
        reveal_strlit("  #  ");
        reveal_strlit("  #   ");
        reveal_strlit("  #  #");
        reveal_strlit("  #  #  ");
        reveal_strlit("  ##  ");
        reveal_strlit("  ###  ");
        reveal_strlit("  ####");
        reveal_strlit("  ####  ");
        reveal_strlit(" # ");
        reveal_strlit(" #    ");
        reveal_strlit(" #     ");
        reveal_strlit(" #    #");
        reveal_strlit(" #    # ");
        reveal_strlit(" #   #");
        reveal_strlit(" #  # ");
        reveal_strlit(" # # # ");
        reveal_strlit(" ##");
        reveal_strlit(" ##  ");
        reveal_strlit(" ### ");
        reveal_strlit(" ### #");
        reveal_strlit(" #### ");
        reveal_strlit(" #####");
        reveal_strlit(" ##### ");
        reveal_strlit("#  ");
        reveal_strlit("#     ");
        reveal_strlit("#      #");
        reveal_strlit("#    #");
        reveal_strlit("#    # ");
        reveal_strlit("#    # #");
        reveal_strlit("#   #");
        reveal_strlit("#   # ");
        reveal_strlit("#   #   #");
        reveal_strlit("#   #   # ");
        reveal_strlit("#   ##");
        reveal_strlit("#   #### ");
        reveal_strlit("#  #  ");
        reveal_strlit("#  #    #");
        reveal_strlit("#  #  #");
        reveal_strlit("#  # #");
        reveal_strlit("#  ##  #");
        reveal_strlit("#  ###");
        reveal_strlit("# #  ");
        reveal_strlit("# #   ");
        reveal_strlit("# #  #");
        reveal_strlit("# #  # #");
        reveal_strlit("##");
        reveal_strlit("## ");
        reveal_strlit("##    ");
        reveal_strlit("##     ");
        reveal_strlit("##    ##");
        reveal_strlit("##   #");
        reveal_strlit("## ##");
        reveal_strlit("###");
        reveal_strlit("####    #");
        reveal_strlit("#####");
        reveal_strlit("##### ");
        reveal_strlit("#####  #");
        reveal_strlit("######");
        reveal_strlit("#######");
        reveal_strlit("########");
        reveal_strlit("#########");
        reveal_strlit("##########");
}

/// Each terminal row of a glyph is exactly as wide as the glyph.
pub proof fn lemma_cell_width(c: char, r: int)
    requires
        0 <= r < HEIGHT,
    ensures
        cell(c, r).len() == glyph_width(c),
{
    let g = glyph_for(glyph_key(c));
    lemma_every_glyph_rectangular(glyph_key(c));
    assert(g[2 * r]@.len() == g[0]@.len());
    assert(g[2 * r + 1]@.len() == g[0]@.len());
}

/// Every terminal row of a rendered text is `text_width` columns wide, so
/// all `HEIGHT` rows line up.
pub proof fn lemma_render_row_width(cs: Seq<char>, r: int)
    requires
        0 <= r < HEIGHT,
    ensures
        render_row(cs, r).len() == text_width(cs),
    decreases cs.len(),
{
    if cs.len() == 1 {
        lemma_cell_width(cs[0], r);
    } else if cs.len() > 1 {
        lemma_render_row_width(cs.drop_last(), r);
        lemma_cell_width(cs.last(), r);
    }
}

/// Renders `text` as big block letters, one string per output row.
///
/// Each output row packs two pixel rows: the upper one becomes `▀`, the lower
/// `▄`, both `█`, neither a space.
pub fn render(text: &str) -> (rows: Vec<String>)
    ensures
        rows.len() == HEIGHT,
        forall|r: int| 0 <= r < HEIGHT ==> #[trigger] rows[r]@ == render_row(text@, r),
        forall|r: int| 0 <= r < HEIGHT ==> #[trigger] rows[r]@.len() == text_width(text@),
{
    let chars = chars_of(text);
    let n = chars.len();
    let mut rows: Vec<String> = Vec::new();
    for row in 0..HEIGHT
        invariant
            chars@ == text@,
            n == chars@.len(),
            rows.len() == row,
            forall|r: int| 0 <= r < row ==> #[trigger] rows[r]@ == render_row(text@, r),
    {
        let mut out = String::new();
        for i in 0..n
            invariant
                chars@ == text@,
                n == chars@.len(),
                row < HEIGHT,
                out@ == render_row(chars@.take(i as int), row as int),
        {
            if i > 0 {
                push_char(&mut out, ' ');
            }
            let ghost sep = out@;
            let g = glyph(chars[i]);
            let top = chars_of(g[row * 2]);
            let bottom = chars_of(g[row * 2 + 1]);
            let width = if top.len() >= bottom.len() { top.len() } else { bottom.len() };
            for x in 0..width
                invariant
                    out@ == sep + pack(top@, bottom@).take(x as int),
                    width == pack(top@, bottom@).len(),
            {
                let t = x < top.len() && top[x] != ' ';
                let b = x < bottom.len() && bottom[x] != ' ';
                let ch = if t && b {
                    '█'
                } else if t {
                    '▀'
                } else if b {
                    '▄'
                } else {
                    ' '
                };
                push_char(&mut out, ch);
                assert(pack(top@, bottom@).take(x + 1) =~= pack(top@, bottom@).take(x as int).push(ch));
            }
            proof {
                let cs = chars@.take(i + 1);
                assert(cs.drop_last() =~= chars@.take(i as int));
                assert(pack(top@, bottom@).take(width as int) =~= pack(top@, bottom@));
                assert(pack(top@, bottom@) == cell(chars@[i as int], row as int));
                assert(out@ =~= render_row(cs, row as int));
            }
        }
        assert(chars@.take(n as int) =~= chars@);
        rows.push(out);
    }
    proof {
        assert forall|r: int| 0 <= r < HEIGHT implies #[trigger] rows[r]@.len() == text_width(text@) by {
            lemma_render_row_width(text@, r);
        }
    }
    rows
}

/// Where a run of `len` cells starts so that it sits centred in `avail`
/// cells; at the start when it does not fit.
pub fn centered_start(avail: u16, len: u16) -> (start: u16)
    ensures
        start == if len < avail {
            (avail - len) / 2
        } else {
            0
        },
{
    if len < avail {
        (avail - len) / 2
    } else {
        0
    }
}

} // verus!
