use vstd::prelude::*;

verus! {

/// The commands the bot answers to.
#[derive(Clone, Copy, Debug, PartialEq, Eq, Structural)]
pub enum Command {
    Join,
    Leave,
    Play,
}

/// The command a name stands for, if any.
pub open spec fn command_of(name: Seq<char>) -> Option<Command> {
    if name == "join"@ {
        Some(Command::Join)
    } else if name == "leave"@ {
        Some(Command::Leave)
    } else if name == "play"@ {
        Some(Command::Play)
    } else {
        None
    }
}

/// Unicode's White_Space characters, the ones that separate words.
pub open spec fn is_space(c: char) -> bool {
    let n = c as u32;
    (0x9 <= n <= 0xd) || n == 0x20 || n == 0x85 || n == 0xa0 || n == 0x1680
        || (0x2000 <= n <= 0x200a) || n == 0x2028 || n == 0x2029 || n == 0x202f
        || n == 0x205f || n == 0x3000
}

/// The text with its leading white space taken off.
pub open spec fn skip_space(s: Seq<char>) -> Seq<char>
    decreases s.len(),
{
    if s.len() > 0 && is_space(s[0]) {
        skip_space(s.drop_first())
    } else {
        s
    }
}

/// The characters before the first white space.
pub open spec fn leading_word(s: Seq<char>) -> Seq<char>
    decreases s.len(),
{
    if s.len() > 0 && !is_space(s[0]) {
        seq![s[0]] + leading_word(s.drop_first())
    } else {
        Seq::empty()
    }
}

/// The first white-space-delimited word of a text; empty when there is none.
pub open spec fn first_word(s: Seq<char>) -> Seq<char> {
    leading_word(skip_space(s))
}

/// Whether `c` is white space.
pub fn char_is_space(c: char) -> (r: bool)
    ensures
        r == is_space(c),
{
    let n = c as u32;
    (0x9 <= n && n <= 0xd) || n == 0x20 || n == 0x85 || n == 0xa0 || n == 0x1680
        || (0x2000 <= n && n <= 0x200a) || n == 0x2028 || n == 0x2029 || n == 0x202f
        || n == 0x205f || n == 0x3000
}

/// Whether two texts hold the same characters.
pub fn same_text(a: &str, b: &str) -> (r: bool)
    ensures
        r == (a@ == b@),
{
    let n = a.unicode_len();
    if n != b.unicode_len() {
        return false;
    }
    let mut i: usize = 0;
    while i < n
        invariant
            n == a@.len(),
            n == b@.len(),
            i <= n,
            forall|j: int| 0 <= j < i ==> a@[j] == b@[j],
        decreases n - i,
    {
        if a.get_char(i) != b.get_char(i) {
            return false;
        }
        i = i + 1;
    }
    assert(a@ =~= b@);
    true
}

impl Command {
    /// The command a name stands for; `None` for a name the bot ignores.
    pub fn parse(name: &str) -> (r: Option<Command>)
        ensures
            r == command_of(name@),
    {
        if same_text(name, "join") {
            Some(Command::Join)
        } else if same_text(name, "leave") {
            Some(Command::Leave)
        } else if same_text(name, "play") {
            Some(Command::Play)
        } else {
            None
        }
    }
}

proof fn lemma_skip_from(s: Seq<char>, i: int)
    requires
        0 <= i < s.len(),
        is_space(s[i]),
    ensures
        skip_space(s.subrange(i, s.len() as int)) == skip_space(s.subrange(i + 1, s.len() as int)),
{
    assert(s.subrange(i, s.len() as int).drop_first() =~= s.subrange(i + 1, s.len() as int));
}

proof fn lemma_word_from(s: Seq<char>, i: int, j: int)
    requires
        0 <= i <= j < s.len(),
        !is_space(s[j]),
        leading_word(s.subrange(i, s.len() as int)) == s.subrange(i, j) + leading_word(s.subrange(j, s.len() as int)),
    ensures
        leading_word(s.subrange(i, s.len() as int)) == s.subrange(i, j + 1) + leading_word(s.subrange(j + 1, s.len() as int)),
{
    let t = s.subrange(j, s.len() as int);
    assert(t.drop_first() =~= s.subrange(j + 1, s.len() as int));
    assert(leading_word(t) == seq![s[j]] + leading_word(s.subrange(j + 1, s.len() as int)));
    assert(s.subrange(i, j) + (seq![s[j]] + leading_word(s.subrange(j + 1, s.len() as int)))
        =~= s.subrange(i, j + 1) + leading_word(s.subrange(j + 1, s.len() as int)));
}

/// The first white-space-delimited word of `text`; empty when it holds none.
pub fn first_word_of(text: &str) -> (r: String)
    ensures
        r@ == first_word(text@),
{
    let n = text.unicode_len();
    let ghost s = text@;
    let mut i: usize = 0;
    assert(s.subrange(0, n as int) =~= s);
    while i < n && char_is_space(text.get_char(i))
        invariant
            n == s.len(),
            s == text@,
            i <= n,
            skip_space(s.subrange(i as int, n as int)) == skip_space(s),
        decreases n - i,
    {
        proof { lemma_skip_from(s, i as int); }
        i = i + 1;
    }
    let ghost t = s.subrange(i as int, n as int);
    assert(skip_space(t) == t) by {
        if t.len() > 0 {
            assert(t[0] == s[i as int]);
        }
    }
    let mut j: usize = i;
    assert(s.subrange(i as int, j as int) =~= Seq::<char>::empty());
    assert(s.subrange(i as int, j as int) + leading_word(t) =~= leading_word(t));
    while j < n && !char_is_space(text.get_char(j))
        invariant
            n == s.len(),
            s == text@,
            i <= j <= n,
            t == s.subrange(i as int, n as int),
            leading_word(t) == s.subrange(i as int, j as int) + leading_word(s.subrange(j as int, n as int)),
        decreases n - j,
    {
        proof { lemma_word_from(s, i as int, j as int); }
        j = j + 1;
    }
    let ghost rest = s.subrange(j as int, n as int);
    assert(leading_word(rest) == Seq::<char>::empty()) by {
        if rest.len() > 0 {
            assert(rest[0] == s[j as int]);
        }
    }
    assert(leading_word(t) =~= s.subrange(i as int, j as int));
    text.substring_char(i, j).to_owned()
}

} // verus!
