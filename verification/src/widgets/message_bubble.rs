//! A fixed-width bordered speech bubble for one chat message: a speaker
//! prompt line with the author's name in angle brackets, a rounded frame,
//! and the message text re-wrapped to the computed inner width.
//!
//! The bubble is a pure text layout: the same `(max_width, content,
//! author)` triple always paints the same character grid.

use vstd::arithmetic::div_mod::{
    lemma_div_is_ordered, lemma_fundamental_div_mod, lemma_fundamental_div_mod_converse,
    lemma_mod_bound,
};
use vstd::prelude::*;
use vstd::string::*;

verus! {

pub const PROMPT_UP_CORNER: char = '\u{2554}';
pub const PROMPT_DOWN_CORNER: char = '\u{255A}';
pub const PROMPT_HORIZON: char = '\u{2550}';
pub const COLON: char = ':';
pub const FRAME_LEFTUP: char = '\u{256D}';
pub const FRAME_RIGTHUP: char = '\u{256E}';
pub const FRAME_LEFTDOWN: char = '\u{2570}';
pub const FRAME_RIGTHDOWN: char = '\u{256F}';
pub const FRAME_HORIZON: char = '\u{2500}';
pub const FRAME_VERT: char = '\u{2502}';

/// The bubble's total width: the message width plus one frame column and
/// one margin column on each side and the four-cell prompt shift, capped
/// at the caller's maximum.
pub open spec fn spec_bubble_width(content_len: int, max_width: int) -> int {
    if content_len + 8 < max_width {
        content_len + 8
    } else {
        max_width
    }
}

/// How many rows the message needs at the given inner width.
pub open spec fn spec_message_height(content_len: int, message_width: int) -> int {
    content_len / message_width + if content_len % message_width == 0 {
        0int
    } else {
        1int
    }
}

/// Frame top, message rows, frame bottom, below the one prompt row.
pub open spec fn spec_bubble_height(content_len: int, message_width: int) -> int {
    3 + spec_message_height(content_len, message_width)
}

pub struct MessageBubble {
    pub content: String,
    pub author: String,
    pub bubble_width: u16,
    pub bubble_height: u16,
    pub message_width: u16,
    pub max_width: u16,
    pub shift_width: u16,
    pub margin_width: u16,
    pub painting: Vec<Vec<char>>,
}

impl MessageBubble {
    /// Geometry well-formedness: the widths and heights fit together and
    /// the grid has exactly the computed dimensions.
    pub open spec fn wf(self) -> bool {
        &&& self.shift_width == 4
        &&& self.margin_width == 1
        &&& 1 <= self.content@.len()
        &&& self.content@.len() + 8 <= u16::MAX
        &&& self.author@.len() + 6 <= usize::MAX
        &&& 9 <= self.max_width
        &&& self.bubble_width == spec_bubble_width(self.content@.len() as int, self.max_width as int)
        &&& self.message_width == self.bubble_width - 8
        &&& self.bubble_height == spec_bubble_height(
            self.content@.len() as int,
            self.message_width as int,
        )
        &&& self.painting@.len() == self.bubble_height
        &&& forall|r: int|
            0 <= r < self.painting@.len() ==> (#[trigger] self.painting@[r])@.len()
                == self.bubble_width
    }

    /// A blank canvas: well-formed and all spaces.
    pub open spec fn blank(self) -> bool {
        &&& self.wf()
        &&& forall|r: int, c: int|
            0 <= r < self.bubble_height && 0 <= c < self.bubble_width ==> #[trigger] self.painting@[r]@[c]
                == ' '
    }

    /// The cells the speaker prompt writes: the top corner and shift on
    /// row zero, the bracketed author name after them (clipped at the
    /// right edge), and the prompt's lower corner and colon on row one.
    pub open spec fn in_prompt_region(self, r: int, c: int) -> bool {
        ||| (r == 0 && 0 <= c < 4)
        ||| (r == 0 && 4 <= c < 4 + self.author@.len() + 2 && c < self.bubble_width)
        ||| (r == 1 && 0 <= c < 4)
    }

    pub open spec fn prompt_char(self, r: int, c: int) -> char {
        if r == 0 {
            if c == 0 {
                PROMPT_UP_CORNER
            } else if c < 4 {
                PROMPT_HORIZON
            } else if c == 4 {
                '<'
            } else if c == 4 + self.author@.len() + 1 {
                '>'
            } else {
                self.author@[c - 5]
            }
        } else {
            if c == 0 {
                PROMPT_DOWN_CORNER
            } else if c == 3 {
                COLON
            } else {
                PROMPT_HORIZON
            }
        }
    }

    /// The cells the frame writes: the top border right of the prompt
    /// shift, the bottom border, and the two side bars between them.
    pub open spec fn in_frame_region(self, r: int, c: int) -> bool {
        ||| (r == 1 && 4 <= c < self.bubble_width)
        ||| (r == self.bubble_height - 1 && 4 <= c < self.bubble_width)
        ||| (2 <= r < self.bubble_height - 1 && (c == 4 || c == self.bubble_width - 1))
    }

    pub open spec fn frame_char(self, r: int, c: int) -> char {
        if r == 1 {
            if c == 4 {
                FRAME_LEFTUP
            } else if c == self.bubble_width - 1 {
                FRAME_RIGTHUP
            } else {
                FRAME_HORIZON
            }
        } else if r == self.bubble_height - 1 {
            if c == 4 {
                FRAME_LEFTDOWN
            } else if c == self.bubble_width - 1 {
                FRAME_RIGTHDOWN
            } else {
                FRAME_HORIZON
            }
        } else {
            FRAME_VERT
        }
    }

    /// The cell holding the `ith` message character, wrapped at the
    /// message width, starting two cells below the prompt and six cells
    /// right of the edge.
    pub open spec fn content_index(self, r: int, c: int) -> int {
        (r - 2) * self.message_width + (c - 6)
    }

    pub open spec fn in_content_region(self, r: int, c: int) -> bool {
        &&& 2 <= r < self.bubble_height - 1
        &&& 6 <= c < 6 + self.message_width
        &&& 0 <= self.content_index(r, c) < self.content@.len()
    }

    pub open spec fn content_char(self, r: int, c: int) -> char {
        self.content@[self.content_index(r, c)]
    }

    /// The finished painting: message text inside a frame, under the
    /// speaker prompt, spaces everywhere else. The three regions are
    /// disjoint, so the drawing order does not show.
    pub open spec fn spec_cell(self, r: int, c: int) -> char {
        if self.in_content_region(r, c) {
            self.content_char(r, c)
        } else if self.in_frame_region(r, c) {
            self.frame_char(r, c)
        } else if self.in_prompt_region(r, c) {
            self.prompt_char(r, c)
        } else {
            ' '
        }
    }

    pub fn new(max_width: u16, message: &str, author: &str) -> (r: MessageBubble)
        requires
            9 <= max_width,
            1 <= message@.len(),
            message@.len() + 8 <= u16::MAX,
            author@.len() + 6 <= usize::MAX,
        ensures
            r.blank(),
            r.content@ == message@,
            r.author@ == author@,
            r.max_width == max_width,
    {
        let mut bbl = MessageBubble {
            bubble_width: 0,
            bubble_height: 0,
            content: message.to_owned(),
            author: author.to_owned(),
            message_width: 0,
            max_width,
            shift_width: 4,
            margin_width: 1,
            painting: Vec::new(),
        };
        bbl.init_width();
        bbl.init_height();
        bbl.init_painting();
        bbl
    }

    fn init_width(&mut self)
        requires
            old(self).shift_width == 4,
            old(self).margin_width == 1,
            1 <= old(self).content@.len(),
            old(self).content@.len() + 8 <= u16::MAX,
            9 <= old(self).max_width,
        ensures
            final(self).bubble_width == spec_bubble_width(
                old(self).content@.len() as int,
                old(self).max_width as int,
            ),
            final(self).message_width == final(self).bubble_width - 8,
            9 <= final(self).bubble_width,
            final(self).content == old(self).content,
            final(self).author == old(self).author,
            final(self).max_width == old(self).max_width,
            final(self).shift_width == old(self).shift_width,
            final(self).margin_width == old(self).margin_width,
            final(self).bubble_height == old(self).bubble_height,
            final(self).painting == old(self).painting,
    {
        self.message_width = self.content.as_str().unicode_len() as u16;
        let natural = 1 * 2 + self.message_width + self.margin_width * 2 + self.shift_width;
        self.bubble_width = if natural < self.max_width {
            natural
        } else {
            self.max_width
        };
        self.message_width = self.bubble_width - self.shift_width - self.margin_width * 2 - 1 * 2;
    }

    fn init_height(&mut self)
        requires
            1 <= old(self).content@.len(),
            old(self).content@.len() + 8 <= u16::MAX,
            1 <= old(self).message_width,
        ensures
            final(self).bubble_height == spec_bubble_height(
                old(self).content@.len() as int,
                old(self).message_width as int,
            ),
            final(self).content == old(self).content,
            final(self).author == old(self).author,
            final(self).max_width == old(self).max_width,
            final(self).shift_width == old(self).shift_width,
            final(self).margin_width == old(self).margin_width,
            final(self).bubble_width == old(self).bubble_width,
            final(self).message_width == old(self).message_width,
            final(self).painting == old(self).painting,
    {
        let content_len = self.content.as_str().unicode_len() as u16;
        proof {
            let len = self.content@.len() as int;
            let mw = self.message_width as int;
            lemma_fundamental_div_mod(len, mw);
            lemma_mod_bound(len, mw);
            assert(spec_message_height(len, mw) <= len) by (nonlinear_arith)
                requires
                    len == mw * (len / mw) + (len % mw),
                    0 <= len % mw < mw,
                    1 <= mw,
                    1 <= len,
            ;
        }
        let message_height = content_len / self.message_width + if content_len
            % self.message_width == 0 {
            0
        } else {
            1
        };
        self.bubble_height = 2 + message_height + 1;
    }

    #[verifier::loop_isolation(false)]
    fn init_painting(&mut self)
        requires
            old(self).bubble_height + 0 <= u16::MAX,
        ensures
            final(self).painting@.len() == old(self).bubble_height,
            forall|r: int|
                0 <= r < final(self).painting@.len() ==> (#[trigger] final(self).painting@[r])@.len()
                    == old(self).bubble_width,
            forall|r: int, c: int|
                0 <= r < old(self).bubble_height && 0 <= c < old(self).bubble_width ==> #[trigger] final(self).painting@[r]@[c] == ' ',
            final(self).content == old(self).content,
            final(self).author == old(self).author,
            final(self).max_width == old(self).max_width,
            final(self).shift_width == old(self).shift_width,
            final(self).margin_width == old(self).margin_width,
            final(self).bubble_width == old(self).bubble_width,
            final(self).message_width == old(self).message_width,
            final(self).bubble_height == old(self).bubble_height,
    {
        let height = self.bubble_height as usize;
        let width = self.bubble_width as usize;
        let mut painting: Vec<Vec<char>> = Vec::new();
        let mut r: usize = 0;
        while r < height
            invariant
                r <= height,
                painting@.len() == r,
                forall|i: int| 0 <= i < r ==> (#[trigger] painting@[i])@.len() == width,
                forall|i: int, j: int|
                    0 <= i < r && 0 <= j < width ==> #[trigger] painting@[i]@[j] == ' ',
            decreases height - r,
        {
            let mut row: Vec<char> = Vec::new();
            let mut c: usize = 0;
            while c < width
                invariant
                    c <= width,
                    row@.len() == c,
                    forall|j: int| 0 <= j < c ==> #[trigger] row@[j] == ' ',
                decreases width - c,
            {
                row.push(' ');
                c = c + 1;
            }
            painting.push(row);
            r = r + 1;
        }
        self.painting = painting;
    }

    /// Paint all three parts onto a blank canvas.
    pub fn finish_painting(&mut self)
        requires
            old(self).blank(),
        ensures
            final(self).wf(),
            final(self).content == old(self).content,
            final(self).author == old(self).author,
            final(self).bubble_width == old(self).bubble_width,
            final(self).bubble_height == old(self).bubble_height,
            final(self).message_width == old(self).message_width,
            final(self).max_width == old(self).max_width,
            forall|r: int, c: int|
                0 <= r < old(self).bubble_height && 0 <= c < old(self).bubble_width
                    ==> #[trigger] final(self).painting@[r]@[c] == old(self).spec_cell(r, c),
    {
        self.draw_prompt();
        self.draw_bubble_frame();
        self.draw_message_content();
    }

    /// Write the speaker prompt: corner and shift, the author name in
    /// angle brackets (clipped at the right edge), and the prompt foot.
    #[verifier::loop_isolation(false)]
    pub fn draw_prompt(&mut self)
        requires
            old(self).wf(),
        ensures
            final(self).wf(),
            final(self).content == old(self).content,
            final(self).author == old(self).author,
            final(self).bubble_width == old(self).bubble_width,
            final(self).bubble_height == old(self).bubble_height,
            final(self).message_width == old(self).message_width,
            final(self).max_width == old(self).max_width,
            forall|r: int, c: int|
                0 <= r < old(self).bubble_height && 0 <= c < old(self).bubble_width
                    ==> #[trigger] final(self).painting@[r]@[c] == if old(self).in_prompt_region(
                    r,
                    c,
                ) {
                    old(self).prompt_char(r, c)
                } else {
                    old(self).painting@[r]@[c]
                },
    {
        let ghost orig = *old(self);
        self.painting[0][0] = PROMPT_UP_CORNER;
        let mut i: usize = 1;
        while i < 4
            invariant
                1 <= i <= 4,
                self.wf(),
                self.content == orig.content,
                self.author == orig.author,
                self.bubble_width == orig.bubble_width,
                self.bubble_height == orig.bubble_height,
                self.message_width == orig.message_width,
                self.max_width == orig.max_width,
                self.shift_width == orig.shift_width,
                self.margin_width == orig.margin_width,
                forall|r: int, c: int|
                    0 <= r < orig.bubble_height && 0 <= c < orig.bubble_width
                        ==> #[trigger] self.painting@[r]@[c] == if r == 0 && 0 <= c < i {
                        orig.prompt_char(r, c)
                    } else {
                        orig.painting@[r]@[c]
                    },
            decreases 4 - i,
        {
            self.painting[0][i] = PROMPT_HORIZON;
            i = i + 1;
        }

        let author_len = self.author.as_str().unicode_len();
        let width = self.painting[0].len();
        let stop: usize = if author_len + 2 < width - 4 {
            author_len + 2
        } else {
            width - 4
        };
        let mut j: usize = 0;
        while j < stop
            invariant
                j <= stop,
                stop == if orig.author@.len() + 2 < orig.bubble_width - 4 {
                    orig.author@.len() + 2 as int
                } else {
                    orig.bubble_width - 4 as int
                },
                self.wf(),
                self.content == orig.content,
                self.author == orig.author,
                self.bubble_width == orig.bubble_width,
                self.bubble_height == orig.bubble_height,
                self.message_width == orig.message_width,
                self.max_width == orig.max_width,
                self.shift_width == orig.shift_width,
                self.margin_width == orig.margin_width,
                forall|r: int, c: int|
                    0 <= r < orig.bubble_height && 0 <= c < orig.bubble_width
                        ==> #[trigger] self.painting@[r]@[c] == if r == 0 && (0 <= c < 4 || 4 <= c
                        < 4 + j) {
                        orig.prompt_char(r, c)
                    } else {
                        orig.painting@[r]@[c]
                    },
            decreases stop - j,
        {
            let ch = if j == 0 {
                '<'
            } else if j == author_len + 1 {
                '>'
            } else {
                self.author.as_str().get_char(j - 1)
            };
            self.painting[0][4 + j] = ch;
            j = j + 1;
        }

        let mut t: usize = 0;
        while t < 4
            invariant
                t <= 4,
                self.wf(),
                self.content == orig.content,
                self.author == orig.author,
                self.bubble_width == orig.bubble_width,
                self.bubble_height == orig.bubble_height,
                self.message_width == orig.message_width,
                self.max_width == orig.max_width,
                self.shift_width == orig.shift_width,
                self.margin_width == orig.margin_width,
                forall|r: int, c: int|
                    0 <= r < orig.bubble_height && 0 <= c < orig.bubble_width
                        ==> #[trigger] self.painting@[r]@[c] == if orig.in_prompt_region(r, c) && (
                        r == 0 || (r == 1 && c < t)
                    ) {
                        orig.prompt_char(r, c)
                    } else {
                        orig.painting@[r]@[c]
                    },
            decreases 4 - t,
        {
            let ch = if t == 0 {
                PROMPT_DOWN_CORNER
            } else if t == 3 {
                COLON
            } else {
                PROMPT_HORIZON
            };
            self.painting[1][t] = ch;
            t = t + 1;
        }
    }

    /// Write the bubble frame: top and bottom borders right of the
    /// prompt shift, and the side bars between them.
    #[verifier::loop_isolation(false)]
    pub fn draw_bubble_frame(&mut self)
        requires
            old(self).wf(),
        ensures
            final(self).wf(),
            final(self).content == old(self).content,
            final(self).author == old(self).author,
            final(self).bubble_width == old(self).bubble_width,
            final(self).bubble_height == old(self).bubble_height,
            final(self).message_width == old(self).message_width,
            final(self).max_width == old(self).max_width,
            forall|r: int, c: int|
                0 <= r < old(self).bubble_height && 0 <= c < old(self).bubble_width
                    ==> #[trigger] final(self).painting@[r]@[c] == if old(self).in_frame_region(
                    r,
                    c,
                ) {
                    old(self).frame_char(r, c)
                } else {
                    old(self).painting@[r]@[c]
                },
    {
        let ghost orig = *old(self);
        let row_offset: usize = 1;
        let col_offset: usize = 4;
        let frame_width: usize = (self.bubble_width - 4) as usize;
        let frame_height: usize = (self.bubble_height - 1) as usize;

        let mut col: usize = 0;
        while col < frame_width
            invariant
                col <= frame_width,
                frame_width == orig.bubble_width - 4,
                frame_height == orig.bubble_height - 1,
                self.wf(),
                self.content == orig.content,
                self.author == orig.author,
                self.bubble_width == orig.bubble_width,
                self.bubble_height == orig.bubble_height,
                self.message_width == orig.message_width,
                self.max_width == orig.max_width,
                self.shift_width == orig.shift_width,
                self.margin_width == orig.margin_width,
                forall|r: int, c: int|
                    0 <= r < orig.bubble_height && 0 <= c < orig.bubble_width
                        ==> #[trigger] self.painting@[r]@[c] == if r == 1 && 4 <= c < 4 + col {
                        orig.frame_char(r, c)
                    } else {
                        orig.painting@[r]@[c]
                    },
            decreases frame_width - col,
        {
            let ch = if col == 0 {
                FRAME_LEFTUP
            } else if col == frame_width - 1 {
                FRAME_RIGTHUP
            } else {
                FRAME_HORIZON
            };
            self.painting[row_offset][col + col_offset] = ch;
            col = col + 1;
        }

        let mut col2: usize = 0;
        while col2 < frame_width
            invariant
                col2 <= frame_width,
                frame_width == orig.bubble_width - 4,
                frame_height == orig.bubble_height - 1,
                self.wf(),
                self.content == orig.content,
                self.author == orig.author,
                self.bubble_width == orig.bubble_width,
                self.bubble_height == orig.bubble_height,
                self.message_width == orig.message_width,
                self.max_width == orig.max_width,
                self.shift_width == orig.shift_width,
                self.margin_width == orig.margin_width,
                forall|r: int, c: int|
                    0 <= r < orig.bubble_height && 0 <= c < orig.bubble_width
                        ==> #[trigger] self.painting@[r]@[c] == if (r == 1 && 4 <= c
                        < orig.bubble_width) || (r == orig.bubble_height - 1 && 4 <= c < 4 + col2) {
                        orig.frame_char(r, c)
                    } else {
                        orig.painting@[r]@[c]
                    },
            decreases frame_width - col2,
        {
            let ch = if col2 == 0 {
                FRAME_LEFTDOWN
            } else if col2 == frame_width - 1 {
                FRAME_RIGTHDOWN
            } else {
                FRAME_HORIZON
            };
            self.painting[row_offset + frame_height - 1][col2 + col_offset] = ch;
            col2 = col2 + 1;
        }

        let mut row: usize = 1;
        while row < frame_height - 1
            invariant
                1 <= row <= frame_height - 1 || (frame_height <= 2 && row == 1),
                frame_width == orig.bubble_width - 4,
                frame_height == orig.bubble_height - 1,
                self.wf(),
                self.content == orig.content,
                self.author == orig.author,
                self.bubble_width == orig.bubble_width,
                self.bubble_height == orig.bubble_height,
                self.message_width == orig.message_width,
                self.max_width == orig.max_width,
                self.shift_width == orig.shift_width,
                self.margin_width == orig.margin_width,
                forall|r: int, c: int|
                    0 <= r < orig.bubble_height && 0 <= c < orig.bubble_width
                        ==> #[trigger] self.painting@[r]@[c] == if ((r == 1 || r
                        == orig.bubble_height - 1) && 4 <= c < orig.bubble_width) || (2 <= r < 1
                        + row && (c == 4 || c == orig.bubble_width - 1)) {
                        orig.frame_char(r, c)
                    } else {
                        orig.painting@[r]@[c]
                    },
            decreases frame_height - 1 - row,
        {
            self.painting[row + row_offset][col_offset] = FRAME_VERT;
            self.painting[row + row_offset][frame_width - 1 + col_offset] = FRAME_VERT;
            row = row + 1;
        }
    }

    /// Write the message text, wrapped at the message width, into the
    /// frame's interior.
    #[verifier::loop_isolation(false)]
    pub fn draw_message_content(&mut self)
        requires
            old(self).wf(),
        ensures
            final(self).wf(),
            final(self).content == old(self).content,
            final(self).author == old(self).author,
            final(self).bubble_width == old(self).bubble_width,
            final(self).bubble_height == old(self).bubble_height,
            final(self).message_width == old(self).message_width,
            final(self).max_width == old(self).max_width,
            forall|r: int, c: int|
                0 <= r < old(self).bubble_height && 0 <= c < old(self).bubble_width
                    ==> #[trigger] final(self).painting@[r]@[c] == if old(self).in_content_region(
                    r,
                    c,
                ) {
                    old(self).content_char(r, c)
                } else {
                    old(self).painting@[r]@[c]
                },
    {
        let ghost orig = *old(self);
        let len = self.content.as_str().unicode_len();
        let mw = self.message_width as usize;
        let mut ith: usize = 0;
        while ith < len
            invariant
                ith <= len,
                len == orig.content@.len(),
                mw == orig.message_width,
                1 <= mw,
                self.wf(),
                self.content == orig.content,
                self.author == orig.author,
                self.bubble_width == orig.bubble_width,
                self.bubble_height == orig.bubble_height,
                self.message_width == orig.message_width,
                self.max_width == orig.max_width,
                self.shift_width == orig.shift_width,
                self.margin_width == orig.margin_width,
                forall|r: int, c: int|
                    0 <= r < orig.bubble_height && 0 <= c < orig.bubble_width
                        ==> #[trigger] self.painting@[r]@[c] == if orig.in_content_region(r, c)
                        && orig.content_index(r, c) < ith {
                        orig.content_char(r, c)
                    } else {
                        orig.painting@[r]@[c]
                    },
            decreases len - ith,
        {
            let ch = self.content.as_str().get_char(ith);
            let row = ith / mw;
            let col = ith % mw;
            proof {
                lemma_fundamental_div_mod(ith as int, mw as int);
                lemma_mod_bound(ith as int, mw as int);
                lemma_row_in_message(ith as int, len as int, mw as int);
                assert(orig.content_index(row + 2, col + 6) == ith) by (nonlinear_arith)
                    requires
                        ith == mw * ((ith as int) / (mw as int)) + (ith as int) % (mw as int),
                        row == (ith as int) / (mw as int),
                        col == (ith as int) % (mw as int),
                        orig.content_index(row + 2, col + 6) == row * (mw as int) + col,
                ;
                assert forall|r: int, c: int|
                    0 <= r < orig.bubble_height && 0 <= c < orig.bubble_width
                        && orig.in_content_region(r, c) && orig.content_index(r, c) == ith implies r
                    == row + 2 && c == col + 6 by {
                    lemma_cell_of_index(orig, r, c, ith as int);
                }
            }
            self.painting[row + 2][col + 6] = ch;
            ith = ith + 1;
        }
    }
}

/// A message character's row lies strictly inside the frame: its index
/// divided by the message width is below the message height.
proof fn lemma_row_in_message(ith: int, len: int, mw: int)
    requires
        0 <= ith < len,
        1 <= mw,
    ensures
        0 <= ith / mw < spec_message_height(len, mw),
{
    lemma_fundamental_div_mod(len, mw);
    lemma_mod_bound(len, mw);
    let q = len / mw;
    let s = len % mw;
    if s == 0 {
        assert(len - 1 == (q - 1) * mw + (mw - 1)) by (nonlinear_arith)
            requires
                len == mw * q + s,
                s == 0,
        ;
        lemma_fundamental_div_mod_converse(len - 1, mw, q - 1, mw - 1);
    } else {
        assert(len - 1 == q * mw + (s - 1)) by (nonlinear_arith)
            requires
                len == mw * q + s,
                1 <= s,
        ;
        lemma_fundamental_div_mod_converse(len - 1, mw, q, s - 1);
    }
    lemma_div_is_ordered(ith, len - 1, mw);
    lemma_div_is_ordered(0, ith, mw);
}

/// Each message index owns exactly one cell: a content cell whose index
/// is `ith` sits at row `ith / mw + 2` and column `ith % mw + 6`.
proof fn lemma_cell_of_index(bbl: MessageBubble, r: int, c: int, ith: int)
    requires
        bbl.wf(),
        bbl.in_content_region(r, c),
        bbl.content_index(r, c) == ith,
    ensures
        r == ith / (bbl.message_width as int) + 2,
        c == ith % (bbl.message_width as int) + 6,
{
    let mw = bbl.message_width as int;
    assert(ith == (r - 2) * mw + (c - 6)) by (nonlinear_arith)
        requires
            bbl.content_index(r, c) == ith,
            bbl.content_index(r, c) == (r - 2) * mw + (c - 6),
    ;
    lemma_fundamental_div_mod_converse(ith, mw, r - 2, c - 6);
}

} // verus!
