use vstd::prelude::*;
use vstd::seq_lib::*;
use vstd::string::*;

verus! {

/// One buffer line: a sequence of characters with no embedded newline.
pub open spec fn line_ok(l: Seq<char>) -> bool {
    forall|i: int| 0 <= i < l.len() ==> l[i] != '\n'
}

/// Well-formed buffer content: at least one line, none containing a newline.
pub open spec fn lines_ok(ls: Seq<Seq<char>>) -> bool {
    &&& ls.len() >= 1
    &&& forall|i: int| 0 <= i < ls.len() ==> line_ok(#[trigger] ls[i])
}

/// The content of an empty buffer: a single empty line.
pub open spec fn cleared() -> Seq<Seq<char>> {
    seq![Seq::<char>::empty()]
}

/// A line starts the slash-command form: non-empty and beginning with '/'.
pub open spec fn is_cmd_line(l: Seq<char>) -> bool {
    l.len() > 0 && l[0] == '/'
}

/// The buffer content joined with single '\n' separators.
pub open spec fn join_lines(ls: Seq<Seq<char>>) -> Seq<char>
    decreases ls.len(),
{
    if ls.len() == 0 {
        Seq::empty()
    } else if ls.len() == 1 {
        ls[0]
    } else {
        ls[0] + seq!['\n'] + join_lines(ls.skip(1))
    }
}

/// Index of the first occurrence of `c` in `s`, or `s.len()` if there is none.
pub open spec fn first_ch(s: Seq<char>, c: char) -> nat
    decreases s.len(),
{
    if s.len() == 0 {
        0
    } else if s[0] == c {
        0
    } else {
        (1 + first_ch(s.skip(1), c)) as nat
    }
}

/// Index of the first '\n' in `s`, or `s.len()` if there is none.
pub open spec fn first_nl(s: Seq<char>) -> nat {
    first_ch(s, '\n')
}

pub proof fn lemma_first_ch(s: Seq<char>, c: char)
    ensures
        first_ch(s, c) <= s.len(),
        first_ch(s, c) < s.len() ==> s[first_ch(s, c) as int] == c,
        forall|i: int| 0 <= i < first_ch(s, c) ==> s[i] != c,
    decreases s.len(),
{
    if s.len() == 0 {
    } else if s[0] == c {
    } else {
        lemma_first_ch(s.skip(1), c);
        assert forall|i: int| 0 <= i < first_ch(s, c) implies s[i] != c by {
            if i > 0 {
                assert(s.skip(1)[i - 1] == s[i]);
            }
        }
    }
}

/// The characterization of `first_ch` pins it: a position preceded by no
/// occurrence of `c`, holding `c` or sitting at the end, is `first_ch`.
pub proof fn lemma_first_ch_is(s: Seq<char>, c: char, i: int)
    requires
        0 <= i <= s.len(),
        forall|j: int| 0 <= j < i ==> s[j] != c,
        i < s.len() ==> s[i] == c,
    ensures
        first_ch(s, c) == i,
    decreases s.len(),
{
    if s.len() == 0 {
    } else if s[0] == c {
    } else {
        assert forall|j: int| 0 <= j < i - 1 implies s.skip(1)[j] != c by {
            assert(s.skip(1)[j] == s[j + 1]);
        }
        if i - 1 < s.len() - 1 {
            assert(s.skip(1)[i - 1] == s[i]);
        }
        lemma_first_ch_is(s.skip(1), c, i - 1);
    }
}

/// A line segment with one trailing carriage return removed, if present.
pub open spec fn strip_cr(s: Seq<char>) -> Seq<char> {
    if s.len() > 0 && s.last() == '\r' {
        s.drop_last()
    } else {
        s
    }
}

pub proof fn lemma_first_nl(s: Seq<char>)
    ensures
        first_nl(s) <= s.len(),
        first_nl(s) < s.len() ==> s[first_nl(s) as int] == '\n',
        forall|i: int| 0 <= i < first_nl(s) ==> s[i] != '\n',
{
    lemma_first_ch(s, '\n');
}

/// Text split into buffer lines: segments between '\n' characters, each with
/// a trailing '\r' removed. The split of the empty text is one empty line.
pub open spec fn split_lines(s: Seq<char>) -> Seq<Seq<char>>
    decreases s.len(),
{
    let i = first_nl(s) as int;
    if 0 <= i < s.len() {
        seq![strip_cr(s.take(i))] + split_lines(s.skip(i + 1))
    } else {
        seq![strip_cr(s)]
    }
}

pub proof fn lemma_split_lines_wf(s: Seq<char>)
    ensures
        lines_ok(split_lines(s)),
    decreases s.len(),
{
    lemma_first_nl(s);
    let i = first_nl(s) as int;
    if 0 <= i < s.len() {
        lemma_split_lines_wf(s.skip(i + 1));
        assert(line_ok(strip_cr(s.take(i))));
        assert forall|j: int| 0 <= j < split_lines(s).len() implies line_ok(
            #[trigger] split_lines(s)[j],
        ) by {
            if j > 0 {
                assert(split_lines(s)[j] == split_lines(s.skip(i + 1))[j - 1]);
            }
        }
    } else {
        assert(line_ok(strip_cr(s)));
    }
}

/// Splitting a text that contains no newline and no trailing carriage
/// return yields that text as the single line.
pub proof fn lemma_split_lines_single(s: Seq<char>)
    requires
        line_ok(s),
        s.len() == 0 || s.last() != '\r',
    ensures
        split_lines(s) =~= seq![s],
{
    lemma_first_nl(s);
    assert(first_nl(s) == s.len());
}

/// For well-formed content, the joined text is empty exactly when the
/// content is one empty line.
pub proof fn lemma_join_empty(ls: Seq<Seq<char>>)
    requires
        lines_ok(ls),
    ensures
        (join_lines(ls).len() == 0) <==> (ls =~~= cleared()),
{
    if ls.len() == 1 {
        if join_lines(ls).len() == 0 {
            assert(ls[0].len() == 0);
            assert(ls[0] =~= Seq::<char>::empty());
        }
    } else {
        assert(join_lines(ls) == ls[0] + seq!['\n'] + join_lines(ls.skip(1)));
        assert(join_lines(ls).len() >= 1);
    }
}

/// Joining content extended by one more line appends a newline separator
/// and that line (no separator when the content was empty).
pub proof fn lemma_join_push(ls: Seq<Seq<char>>, x: Seq<char>)
    ensures
        join_lines(ls.push(x)) == if ls.len() == 0 {
            x
        } else {
            join_lines(ls) + seq!['\n'] + x
        },
    decreases ls.len(),
{
    if ls.len() == 0 {
        assert(ls.push(x) =~= seq![x]);
    } else if ls.len() == 1 {
        assert(ls.push(x)[0] == ls[0]);
        assert(ls.push(x).skip(1) =~= seq![x]);
        assert(join_lines(seq![x]) == x);
        assert(join_lines(ls.push(x)) == ls[0] + seq!['\n'] + x);
    } else {
        assert(ls.push(x)[0] == ls[0]);
        assert(ls.push(x).skip(1) =~= ls.skip(1).push(x));
        lemma_join_push(ls.skip(1), x);
        assert(join_lines(ls.push(x)) == ls[0] + seq!['\n'] + (join_lines(ls.skip(1))
            + seq!['\n'] + x));
        assert(ls[0] + seq!['\n'] + (join_lines(ls.skip(1)) + seq!['\n'] + x) =~= (ls[0]
            + seq!['\n'] + join_lines(ls.skip(1))) + seq!['\n'] + x);
    }
}

/// The given lines joined with single newline separators.
pub fn join_text(lines: &Vec<String>) -> (t: String)
    ensures
        t@ == join_lines(views_of(lines@)),
{
    proof {
        reveal_strlit("\n");
        assert(views_of(lines@.take(0)) =~= Seq::<Seq<char>>::empty());
    }
    let mut t = String::new();
    let n = lines.len();
    let mut i: usize = 0;
    while i < n
        invariant
            0 <= i <= n,
            n == lines.len(),
            "\n"@ == seq!['\n'],
            t@ == join_lines(views_of(lines@.take(i as int))),
        decreases n - i,
    {
        proof {
            assert(views_of(lines@.take(i + 1)) =~= views_of(lines@.take(i as int)).push(
                lines@[i as int]@,
            ));
            lemma_join_push(views_of(lines@.take(i as int)), lines@[i as int]@);
        }
        if i > 0 {
            t.append("\n");
        } else {
            proof {
                assert(views_of(lines@.take(i as int)).len() == 0);
            }
        }
        t.append(lines[i].as_str());
        i = i + 1;
    }
    proof {
        assert(lines@.take(n as int) =~= lines@);
    }
    t
}

/// Content after inserting character `c` at cursor (row, col).
pub open spec fn insert_char_at(ls: Seq<Seq<char>>, row: nat, col: nat, c: char) -> Seq<
    Seq<char>,
> {
    ls.update(row as int, ls[row as int].insert(col as int, c))
}

/// Content after inserting a newline at cursor (row, col): the row is split
/// at the column into two lines.
pub open spec fn split_row_at(ls: Seq<Seq<char>>, row: nat, col: nat) -> Seq<Seq<char>> {
    ls.take(row as int) + seq![ls[row as int].take(col as int), ls[row as int].skip(col as int)]
        + ls.skip(row as int + 1)
}

/// `p` is a prefix of `s`.
pub open spec fn is_prefix_of(p: Seq<char>, s: Seq<char>) -> bool {
    p.len() <= s.len() && s.take(p.len() as int) == p
}

/// The command token of a slash-command line: the characters after the
/// leading '/' up to (excluding) the first space, or to the end of line.
pub open spec fn token_spec(l: Seq<char>) -> Seq<char> {
    l.subrange(1, 1 + first_ch(l.skip(1), ' ') as int)
}

/// The views of a sequence of strings.
pub open spec fn views_of(ss: Seq<String>) -> Seq<Seq<char>> {
    ss.map_values(|s: String| s@)
}

/// Whether `line` is in the slash-command form: non-empty, starting '/'.
pub fn starts_with_slash(line: &String) -> (b: bool)
    ensures
        b == is_cmd_line(line@),
{
    let s = line.as_str();
    if s.is_empty() {
        false
    } else {
        s.get_char(0) == '/'
    }
}

/// The command token of a slash-command line.
pub fn token_of(line: &String) -> (t: String)
    requires
        is_cmd_line(line@),
    ensures
        t@ == token_spec(line@),
{
    let s = line.as_str();
    let n = s.unicode_len();
    let mut i: usize = 1;
    while i < n && s.get_char(i) != ' '
        invariant
            1 <= i <= n,
            n == line@.len(),
            s@ == line@,
            forall|j: int| 1 <= j < i ==> line@[j] != ' ',
        decreases n - i,
    {
        i = i + 1;
    }
    proof {
        assert forall|j: int| 0 <= j < i - 1 implies line@.skip(1)[j] != ' ' by {
            assert(line@.skip(1)[j] == line@[j + 1]);
        }
        if i < n {
            assert(line@.skip(1)[i - 1] == line@[i as int]);
        }
        lemma_first_ch_is(line@.skip(1), ' ', i - 1);
    }
    let t = s.substring_char(1, i);
    t.to_owned()
}

/// Whether `p` is a character-wise prefix of `s`.
pub fn is_char_prefix(p: &String, s: &String) -> (b: bool)
    ensures
        b == is_prefix_of(p@, s@),
{
    let ps = p.as_str();
    let ss = s.as_str();
    let np = ps.unicode_len();
    let ns = ss.unicode_len();
    if np > ns {
        return false;
    }
    let mut i: usize = 0;
    while i < np
        invariant
            0 <= i <= np,
            np <= ns,
            np == p@.len(),
            ns == s@.len(),
            ps@ == p@,
            ss@ == s@,
            forall|j: int| 0 <= j < i ==> p@[j] == s@[j],
        decreases np - i,
    {
        if ps.get_char(i) != ss.get_char(i) {
            proof {
                assert(s@.take(np as int)[i as int] != p@[i as int]);
            }
            return false;
        }
        i = i + 1;
    }
    proof {
        assert(s@.take(np as int) =~= p@);
    }
    true
}

/// The buffer text produced by committing a command: '/', the command
/// name, one trailing space.
pub fn make_cmd_text(cmd: &String) -> (t: String)
    ensures
        t@ == seq!['/'] + cmd@ + seq![' '],
        t@.len() == cmd@.len() + 2,
{
    let mut t = String::from_str("/");
    t.append(cmd.as_str());
    t.append(" ");
    proof {
        reveal_strlit("/");
        reveal_strlit(" ");
        assert(t@ =~= seq!['/'] + cmd@ + seq![' ']);
    }
    t
}

} // verus!
