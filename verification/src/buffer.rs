//! The document: an ordered sequence of lines, edited in place. An edit
//! addressing the index one past the last line appends a new line; deleting
//! at the end of a line merges the following line into it.

use crate::line::{
    line_appended, line_inserted, line_matches, line_text, Line,
};
use crate::unicode::{chars_to_string, graphemes_of};
use crate::view::Location;
use vstd::prelude::*;
use vstd::string::StrSliceExecFns;

verus! {

/// A line with its sole trailing carriage return removed, as happens to a
/// line ended by a carriage return and line feed pair.
pub open spec fn strip_cr(l: Seq<char>) -> Seq<char> {
    if l.len() > 0 && l.last() == '\r' {
        l.drop_last()
    } else {
        l
    }
}

/// A left-to-right scan of the text: the lines completed so far (each ended
/// by a line feed, with a carriage return before the line feed dropped) and
/// the pending characters after the last line feed.
pub open spec fn line_scan(s: Seq<char>) -> (Seq<Seq<char>>, Seq<char>)
    decreases s.len(),
{
    if s.len() == 0 {
        (Seq::empty(), Seq::empty())
    } else {
        let (done, cur) = line_scan(s.drop_last());
        if s.last() == '\n' {
            (done.push(strip_cr(cur)), Seq::empty())
        } else {
            (done, cur.push(s.last()))
        }
    }
}

/// The lines of a text: line feeds separate lines, a carriage return
/// directly before a line feed is dropped, and a final line ending is
/// optional.
pub open spec fn split_lines(s: Seq<char>) -> Seq<Seq<char>> {
    let (done, cur) = line_scan(s);
    if cur.len() == 0 {
        done
    } else {
        done.push(cur)
    }
}

/// Whether the buffer holds exactly one line per entry of `ls`, each built
/// from that entry's text.
pub open spec fn buffer_lines_match(b: Buffer, ls: Seq<Seq<char>>) -> bool {
    &&& b.lines@.len() == ls.len()
    &&& forall|i: int|
        0 <= i < ls.len() ==> {
            &&& line_matches((#[trigger] b.lines@[i])@, graphemes_of(ls[i]))
            &&& line_text(b.lines@[i]@) == ls[i]
        }
}

/// How `insert_char` changes the buffer: past-the-end-plus-one indices do
/// nothing, the index one past the last line appends a fresh line holding
/// only the character, and any other index inserts into that line.
pub open spec fn buffer_insert_applied(pre: Buffer, post: Buffer, ch: char, at: Location) -> bool {
    let len = pre.lines@.len() as int;
    let li = at.line_index as int;
    if li > len {
        post == pre
    } else if li == len {
        &&& post.lines@.len() == len + 1
        &&& (forall|j: int| 0 <= j < len ==> post.lines@[j] == pre.lines@[j])
        &&& line_matches(post.lines@[len]@, graphemes_of(seq![ch]))
        &&& line_text(post.lines@[len]@) == seq![ch]
    } else {
        &&& post.lines@.len() == len
        &&& (forall|j: int| 0 <= j < len && j != li ==> post.lines@[j] == pre.lines@[j])
        &&& line_inserted(pre.lines@[li]@, post.lines@[li]@, ch, at.grapheme_index as int)
    }
}

/// How `delete` changes the buffer: deleting inside a line removes one
/// cluster; deleting at or past the end of a line merges the next line into
/// it when one exists, and does nothing on the last line or outside the
/// buffer.
pub open spec fn buffer_delete_applied(pre: Buffer, post: Buffer, at: Location) -> bool {
    let len = pre.lines@.len() as int;
    let li = at.line_index as int;
    let gi = at.grapheme_index as int;
    if li >= len {
        post == pre
    } else if gi >= pre.lines@[li]@.len() {
        if li + 1 < len {
            &&& post.lines@.len() == len - 1
            &&& (forall|j: int| 0 <= j < li ==> post.lines@[j] == pre.lines@[j])
            &&& (forall|j: int| li < j < len - 1 ==> post.lines@[j] == pre.lines@[j + 1])
            &&& line_appended(pre.lines@[li]@, pre.lines@[li + 1]@, post.lines@[li]@)
        } else {
            post == pre
        }
    } else {
        &&& post.lines@.len() == len
        &&& (forall|j: int| 0 <= j < len && j != li ==> post.lines@[j] == pre.lines@[j])
        &&& post.lines@[li]@ == pre.lines@[li]@.remove(gi)
    }
}

/// The document being edited, as its lines in vertical order.
#[derive(Debug)]
pub struct Buffer {
    pub lines: Vec<Line>,
}

impl Default for Buffer {
    /// The empty buffer.
    fn default() -> (r: Self)
        ensures
            r.lines@.len() == 0,
    {
        Buffer { lines: Vec::new() }
    }
}

impl Buffer {
    /// Builds a buffer from file contents: one line per input line.
    pub fn load(contents: &str) -> (r: Buffer)
        ensures
            buffer_lines_match(r, split_lines(contents@)),
    {
        let n = contents.unicode_len();
        let mut lines: Vec<Line> = Vec::new();
        let mut cur: Vec<char> = Vec::new();
        let mut i: usize = 0;
        while i < n
            invariant
                n == contents@.len(),
                0 <= i <= n,
                ({
                    let (done, pending) = line_scan(contents@.take(i as int));
                    &&& lines@.len() == done.len()
                    &&& (forall|j: int|
                        0 <= j < done.len() ==> {
                            &&& line_matches((#[trigger] lines@[j])@, graphemes_of(done[j]))
                            &&& line_text(lines@[j]@) == done[j]
                        })
                    &&& cur@ == pending
                }),
            decreases n - i,
        {
            let ghost prefix = contents@.take(i as int);
            let c = contents.get_char(i);
            proof {
                assert(contents@.take(i + 1).drop_last() =~= prefix);
                assert(contents@.take(i + 1).last() == contents@[i as int]);
            }
            if c == '\n' {
                if cur.len() > 0 && cur[cur.len() - 1] == '\r' {
                    cur.pop();
                    proof {
                        assert(cur@ =~= strip_cr(line_scan(prefix).1));
                    }
                } else {
                    proof {
                        assert(cur@ =~= strip_cr(line_scan(prefix).1));
                    }
                }
                let text = chars_to_string(&cur);
                lines.push(Line::from(text.as_str()));
                cur.clear();
            } else {
                cur.push(c);
            }
            i += 1;
        }
        proof {
            assert(contents@.take(n as int) =~= contents@);
        }
        if cur.len() > 0 {
            let text = chars_to_string(&cur);
            lines.push(Line::from(text.as_str()));
        }
        Buffer { lines }
    }

    /// Whether the document has no lines at all.
    pub fn is_empty(&self) -> (r: bool)
        ensures
            r == (self.lines@.len() == 0),
    {
        self.lines.is_empty()
    }

    /// The number of lines in the document.
    pub fn height(&self) -> (r: usize)
        ensures
            r == self.lines@.len(),
    {
        self.lines.len()
    }

    /// Inserts a character at a text-space position; see
    /// `buffer_insert_applied` for the exact cases.
    pub fn insert_char(&mut self, character: char, at: Location)
        ensures
            buffer_insert_applied(*old(self), *final(self), character, at),
    {
        let len = self.lines.len();
        if at.line_index > len {
            return ;
        }
        if at.line_index == len {
            let mut text = String::new();
            crate::unicode::push_char(&mut text, character);
            proof {
                assert(text@ =~= seq![character]);
            }
            self.lines.push(Line::from(text.as_str()));
        } else {
            let line = &mut self.lines[at.line_index];
            line.insert_char(character, at.grapheme_index);
        }
    }

    /// Deletes at a text-space position; see `buffer_delete_applied` for
    /// the exact cases, including the merge of the following line.
    pub fn delete(&mut self, at: Location)
        ensures
            buffer_delete_applied(*old(self), *final(self), at),
    {
        let len = self.lines.len();
        if at.line_index >= len {
            return ;
        }
        let count = self.lines[at.line_index].grapheme_count();
        if at.grapheme_index >= count {
            if at.line_index + 1 < len {
                let next_line = self.lines.remove(at.line_index + 1);
                let line = &mut self.lines[at.line_index];
                line.append(&next_line);
            }
        } else {
            let line = &mut self.lines[at.line_index];
            line.delete(at.grapheme_index);
        }
    }
}

} // verus!
