//! From the service's markup to plain text.
//!
//! A tag runs from a `<` to the next `>`. Tags are dropped; those that end a
//! paragraph or a heading, and the line break, leave a line feed behind. A
//! `<` that no `>` follows is no tag: it and what follows stay as they are.

use vstd::prelude::*;

verus! {

/// The place of the first `>` at or after `from`, or the length of `s` where
/// there is none.
pub open spec fn closing(s: Seq<char>, from: int) -> int
    decreases s.len() - from,
{
    if from >= s.len() {
        s.len() as int
    } else if s[from] == '>' {
        from
    } else {
        closing(s, from + 1)
    }
}

/// True for what stands between `<` and `>` in a tag that ends a paragraph
/// (`/p`), ends a heading (`/h1` to `/h6`) or breaks a line (`br`, `br/`).
pub open spec fn is_break(tag: Seq<char>) -> bool {
    ||| (tag.len() == 2 && tag[0] == '/' && tag[1] == 'p')
    ||| (tag.len() == 2 && tag[0] == 'b' && tag[1] == 'r')
    ||| (tag.len() == 3 && tag[0] == 'b' && tag[1] == 'r' && tag[2] == '/')
    ||| (tag.len() == 3 && tag[0] == '/' && tag[1] == 'h' && '1' <= tag[2] <= '6')
}

/// What a tag leaves behind: a line feed, or nothing.
pub open spec fn residue(tag: Seq<char>) -> Seq<char> {
    if is_break(tag) {
        seq!['\n']
    } else {
        Seq::empty()
    }
}

/// The plain text of `s` from place `i` on.
pub open spec fn plain_text_from(s: Seq<char>, i: int) -> Seq<char>
    decreases s.len() - i,
{
    if i < 0 || i >= s.len() {
        Seq::empty()
    } else if s[i] != '<' {
        seq![s[i]] + plain_text_from(s, i + 1)
    } else {
        let j = closing(s, i + 1);
        if j >= s.len() {
            s.subrange(i, s.len() as int)
        } else {
            proof {
                lemma_closing(s, i + 1);
            }
            residue(s.subrange(i + 1, j)) + plain_text_from(s, j + 1)
        }
    }
}

/// The plain text of a marked-up text.
pub open spec fn plain_text(s: Seq<char>) -> Seq<char> {
    plain_text_from(s, 0)
}

/// A text is plain when no `<` in it is followed, anywhere, by a `>`: it
/// holds no tag.
pub open spec fn is_plain(s: Seq<char>) -> bool {
    forall|i: int, j: int| 0 <= i < j < s.len() ==> !(s[i] == '<' && s[j] == '>')
}

/// Where `closing` points, and what lies before that place.
pub proof fn lemma_closing(s: Seq<char>, from: int)
    requires
        0 <= from <= s.len(),
    ensures
        from <= closing(s, from) <= s.len(),
        closing(s, from) < s.len() ==> s[closing(s, from)] == '>',
        forall|k: int| from <= k < closing(s, from) ==> s[k] != '>',
    decreases s.len() - from,
{
    if from < s.len() && s[from] != '>' {
        lemma_closing(s, from + 1);
    }
}

/// A text without tags is its own plain text, from every place on.
pub proof fn lemma_plain_stays_from(s: Seq<char>, i: int)
    requires
        is_plain(s),
        0 <= i <= s.len(),
    ensures
        plain_text_from(s, i) == s.subrange(i, s.len() as int),
    decreases s.len() - i,
{
    if i >= s.len() {
        assert(s.subrange(i, s.len() as int) =~= Seq::<char>::empty());
    } else if s[i] != '<' {
        lemma_plain_stays_from(s, i + 1);
        assert(seq![s[i]] + s.subrange(i + 1, s.len() as int) =~= s.subrange(i, s.len() as int));
    } else {
        lemma_closing(s, i + 1);
    }
}

/// What the conversion gives holds no tag.
pub proof fn lemma_plain_text_is_plain_from(s: Seq<char>, i: int)
    requires
        0 <= i <= s.len(),
    ensures
        is_plain(plain_text_from(s, i)),
    decreases s.len() - i,
{
    if i >= s.len() {
    } else if s[i] != '<' {
        lemma_plain_text_is_plain_from(s, i + 1);
    } else {
        let j = closing(s, i + 1);
        lemma_closing(s, i + 1);
        if j < s.len() {
            lemma_plain_text_is_plain_from(s, j + 1);
        }
    }
}

/// Converting a second time changes nothing.
pub proof fn lemma_plain_text_idempotent(s: Seq<char>)
    ensures
        plain_text(plain_text(s)) == plain_text(s),
{
    lemma_plain_text_is_plain_from(s, 0);
    let t = plain_text(s);
    lemma_plain_stays_from(t, 0);
    assert(t.subrange(0, t.len() as int) =~= t);
}

/// The characters of a text, one by one.
pub fn chars_of(text: &str) -> (chars: Vec<char>)
    ensures
        chars@ == text@,
{
    let mut chars: Vec<char> = Vec::new();
    for c in it: text.chars()
        invariant
            it.seq() == text@,
            chars@ == it.seq().take(it.index()),
    {
        chars.push(c);
    }
    chars
}

/// `String::push` of std: the text grows by the one character, at its end.
#[verifier::external_body]
fn push_char(text: &mut String, c: char)
    ensures
        final(text)@ == old(text)@.push(c),
{
    text.push(c);
}

/// Finds the first `>` at or after `from`.
fn find_closing(chars: &Vec<char>, from: usize) -> (j: usize)
    requires
        from <= chars.len(),
    ensures
        j == closing(chars@, from as int),
        from <= j <= chars.len(),
{
    let mut j: usize = from;
    while j < chars.len() && chars[j] != '>'
        invariant
            from <= j <= chars.len(),
            closing(chars@, j as int) == closing(chars@, from as int),
        decreases chars.len() - j,
    {
        j += 1;
    }
    j
}

/// Tells whether the tag whose inside is `chars[from..to]` leaves a line feed.
fn tag_is_break(chars: &Vec<char>, from: usize, to: usize) -> (b: bool)
    requires
        from <= to <= chars.len(),
    ensures
        b == is_break(chars@.subrange(from as int, to as int)),
{
    let n: usize = to - from;
    if n == 2 {
        let first = chars[from];
        let second = chars[from + 1];
        (first == '/' && second == 'p') || (first == 'b' && second == 'r')
    } else if n == 3 {
        let first = chars[from];
        let second = chars[from + 1];
        let third = chars[from + 2];
        (first == 'b' && second == 'r' && third == '/') || (first == '/' && second == 'h' && '1'
            <= third && third <= '6')
    } else {
        false
    }
}

/// Converts a marked-up text to plain text. Tags are dropped, the ends of
/// paragraphs and headings become line feeds, and a text that holds no tag
/// comes back as it is.
pub fn to_plain_text(raw: &str) -> (text: String)
    ensures
        text@ == plain_text(raw@),
        is_plain(text@),
        is_plain(raw@) ==> text@ == raw@,
{
    let chars = chars_of(raw);
    let mut text = String::new();
    let mut i: usize = 0;
    while i < chars.len()
        invariant
            i <= chars.len(),
            chars@ == raw@,
            text@ + plain_text_from(chars@, i as int) == plain_text(chars@),
        decreases chars.len() - i,
    {
        let c = chars[i];
        let ghost before = text@;
        if c != '<' {
            push_char(&mut text, c);
            assert(text@ + plain_text_from(chars@, i + 1) =~= before + plain_text_from(
                chars@,
                i as int,
            ));
            i += 1;
        } else {
            let j = find_closing(&chars, i + 1);
            if j >= chars.len() {
                let mut k: usize = i;
                while k < chars.len()
                    invariant
                        i <= k <= chars.len(),
                        text@ == before + chars@.subrange(i as int, k as int),
                    decreases chars.len() - k,
                {
                    push_char(&mut text, chars[k]);
                    assert(chars@.subrange(i as int, k + 1) =~= chars@.subrange(
                        i as int,
                        k as int,
                    ).push(chars@[k as int]));
                    k += 1;
                }
                i = chars.len();
                assert(text@ + plain_text_from(chars@, i as int) =~= text@);
            } else {
                if tag_is_break(&chars, i + 1, j) {
                    push_char(&mut text, '\n');
                }
                assert(text@ =~= before + residue(chars@.subrange(i + 1, j as int)));
                assert(text@ + plain_text_from(chars@, j + 1) =~= before + plain_text_from(
                    chars@,
                    i as int,
                ));
                i = j + 1;
            }
        }
    }
    proof {
        assert(text@ =~= text@ + plain_text_from(chars@, i as int));
        lemma_plain_text_is_plain_from(raw@, 0);
        if is_plain(raw@) {
            lemma_plain_stays_from(raw@, 0);
            assert(raw@.subrange(0, raw@.len() as int) =~= raw@);
        }
    }
    text
}

} // verus!
