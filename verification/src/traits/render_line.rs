use vstd::prelude::*;

verus! {

/// A record that can be shown as one line of text.
///
/// Whoever shows the line ends it: the line itself holds no line feed.
pub trait RenderLine {
    /// The text of the line.
    spec fn line(&self) -> Seq<char>;

    /// Returns the text of the line.
    fn render_line(&self) -> (text: String)
        ensures
            text@ == self.line(),
            !text@.contains('\n'),
    ;

    /// The line holds no line feed.
    proof fn lemma_line_has_no_line_feed(&self)
        ensures
            !self.line().contains('\n'),
    ;
}

/// The text `s` on one line: with a blank in place of each line feed.
pub open spec fn one_line(s: Seq<char>) -> Seq<char> {
    s.map_values(|c: char| if c == '\n' { ' ' } else { c })
}

/// The text on one line holds no line feed.
pub proof fn lemma_one_line_has_no_line_feed(s: Seq<char>)
    ensures
        !one_line(s).contains('\n'),
        one_line(s).len() == s.len(),
        !s.contains('\n') ==> one_line(s) == s,
{
    if !s.contains('\n') {
        assert forall|i: int| 0 <= i < s.len() implies one_line(s)[i] == s[i] by {
            assert(s.contains(s[i]));
        }
        assert(one_line(s) =~= s);
    }
}

/// Two texts without a line feed, one after the other, hold no line feed.
pub proof fn lemma_no_line_feed_in_both(a: Seq<char>, b: Seq<char>)
    requires
        !a.contains('\n'),
        !b.contains('\n'),
    ensures
        !(a + b).contains('\n'),
{
    if (a + b).contains('\n') {
        let i = choose|i: int| 0 <= i < (a + b).len() && (a + b)[i] == '\n';
        if i < a.len() {
            assert(a[i] == '\n');
        } else {
            assert(b[i - a.len()] == '\n');
        }
    }
}

/// Writes `s` on one line: each line feed becomes a blank, and every other
/// character stays.
pub fn to_one_line(s: &str) -> (text: String)
    ensures
        text@ == one_line(s@),
{
    broadcast use vstd::string::axiom_spec_iter;

    let n = s.unicode_len();
    let mut text = String::new();
    let mut start: usize = 0;
    let mut i: usize = 0;
    proof {
        reveal_strlit(" ");
        assert(text@ =~= one_line(s@.take(0)));
    }
    for c in it: s.chars()
        invariant
            it.seq() == s@,
            n == s@.len(),
            i == it.index(),
            start <= i <= n,
            " "@ == seq![' '],
            text@ == one_line(s@.take(start as int)),
            forall|k: int| start <= k < i ==> s@[k] != '\n',
    {
        if c == '\n' {
            text.append(s.substring_char(start, i));
            text.append(" ");
            proof {
                assert(text@ =~= one_line(s@.take(i + 1)));
            }
            start = i + 1;
        }
        i = i + 1;
    }
    text.append(s.substring_char(start, i));
    proof {
        assert(s@.take(n as int) =~= s@);
        assert(text@ =~= one_line(s@));
    }
    text
}

} // verus!
