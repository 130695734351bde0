//! Splitting text into tokens, peeling trailing punctuation, and deciding
//! where sentences start.

use vstd::prelude::*;
use crate::text::{chars_of, contains_char, copy_range, is_decimal_digit, spells, string_of};
use crate::token::{Token, TokenView};

verus! {

/// A mark that ends a sentence.
pub open spec fn spec_is_sentence_terminator(c: char) -> bool {
    c == '.' || c == '?' || c == '!'
}

/// The mark that makes a short pause.
pub open spec fn spec_is_comma(c: char) -> bool {
    c == ','
}

/// A character that is peeled off the end of a word.
pub open spec fn is_mark(c: char) -> bool {
    spec_is_sentence_terminator(c) || spec_is_comma(c)
}

/// Whether `c` is one of `.`, `?` and `!`.
#[verifier::when_used_as_spec(spec_is_sentence_terminator)]
pub fn is_sentence_terminator(c: char) -> (r: bool)
    ensures
        r == spec_is_sentence_terminator(c),
{
    c == '.' || c == '?' || c == '!'
}

/// Whether `c` is a comma.
#[verifier::when_used_as_spec(spec_is_comma)]
pub fn is_comma(c: char) -> (r: bool)
    ensures
        r == spec_is_comma(c),
{
    c == ','
}

/// Where the trailing run of marks of `word` begins: the least `k` such that
/// every character from `k` on is a mark.
pub open spec fn marks_start(word: Seq<char>) -> int
    decreases word.len(),
{
    if word.len() > 0 && is_mark(word.last()) {
        marks_start(word.drop_last())
    } else {
        word.len() as int
    }
}

/// The word without its trailing marks.
pub open spec fn word_text(word: Seq<char>) -> Seq<char> {
    word.subrange(0, marks_start(word))
}

/// The trailing marks of the word, in the order in which they stand.
pub open spec fn word_marks(word: Seq<char>) -> Seq<char> {
    word.subrange(marks_start(word), word.len() as int)
}

/// `marks_start` lies inside the word, everything after it is a mark, and the
/// character before it, if any, is not.
pub proof fn lemma_marks_start(word: Seq<char>)
    ensures
        0 <= marks_start(word) <= word.len(),
        forall|i: int| marks_start(word) <= i < word.len() ==> is_mark(#[trigger] word[i]),
        marks_start(word) > 0 ==> !is_mark(word[marks_start(word) - 1]),
        word_text(word) + word_marks(word) == word,
    decreases word.len(),
{
    if word.len() > 0 && is_mark(word.last()) {
        let shorter = word.drop_last();
        lemma_marks_start(shorter);
        assert forall|i: int| marks_start(word) <= i < word.len() implies is_mark(
            #[trigger] word[i],
        ) by {
            if i < shorter.len() {
                assert(word[i] == shorter[i]);
            }
        }
        if marks_start(word) > 0 {
            assert(word[marks_start(word) - 1] == shorter[marks_start(word) - 1]);
        }
    }
    assert(word_text(word) + word_marks(word) =~= word);
}

/// The index in `chars[from..to]` at which the trailing marks begin.
fn marks_boundary(chars: &Vec<char>, from: usize, to: usize) -> (k: usize)
    requires
        from <= to <= chars@.len(),
    ensures
        from <= k <= to,
        k - from == marks_start(chars@.subrange(from as int, to as int)),
{
    let mut k: usize = to;
    while k > from && (is_sentence_terminator(chars[k - 1]) || is_comma(chars[k - 1]))
        invariant
            from <= k <= to <= chars@.len(),
            marks_start(chars@.subrange(from as int, to as int)) == marks_start(
                chars@.subrange(from as int, k as int),
            ),
        decreases k,
    {
        assert(chars@.subrange(from as int, k as int).drop_last() =~= chars@.subrange(
            from as int,
            k - 1,
        ));
        k -= 1;
    }
    k
}

/// Splits a word into its text and its trailing marks.
pub fn extract_punctuation(word: &str) -> (parts: (String, Vec<char>))
    ensures
        parts.0@ == word_text(word@),
        parts.1@ == word_marks(word@),
{
    let chars = chars_of(word);
    let n: usize = chars.len();
    assert(chars@.subrange(0, n as int) =~= chars@);
    let k: usize = marks_boundary(&chars, 0, n);
    (string_of(&chars, 0, k), copy_range(&chars, k, n))
}

/// The fixed table of abbreviations whose period does not end a sentence.
pub open spec fn spec_is_abbreviation(word: Seq<char>) -> bool {
    ||| word == "Dr."@
    ||| word == "Mr."@
    ||| word == "Mrs."@
    ||| word == "Ms."@
    ||| word == "St."@
    ||| word == "Jr."@
    ||| word == "e.g."@
    ||| word == "i.e."@
    ||| word == "vs."@
    ||| word == "etc."@
}

fn abbreviation_chars(word: &Vec<char>) -> (r: bool)
    ensures
        r == spec_is_abbreviation(word@),
{
    spells(word, "Dr.") || spells(word, "Mr.") || spells(word, "Mrs.") || spells(word, "Ms.")
        || spells(word, "St.") || spells(word, "Jr.") || spells(word, "e.g.") || spells(
        word,
        "i.e.",
    ) || spells(word, "vs.") || spells(word, "etc.")
}

/// Whether `word`, with its punctuation, is a known abbreviation.
pub fn is_abbreviation(word: &str) -> (r: bool)
    ensures
        r == spec_is_abbreviation(word@),
{
    let chars = chars_of(word);
    abbreviation_chars(&chars)
}

/// Every character is a digit.
pub open spec fn all_digits(s: Seq<char>) -> bool {
    forall|i: int| 0 <= i < s.len() ==> is_decimal_digit(#[trigger] s[i])
}

/// Digits, a single period, digits: both runs of digits non-empty.
pub open spec fn spec_is_decimal_number(word: Seq<char>) -> bool {
    exists|k: int| is_decimal_split(word, k)
}

/// `word` is a decimal number whose period stands at index `k`.
pub open spec fn is_decimal_split(word: Seq<char>, k: int) -> bool {
    &&& 0 < k < word.len() - 1
    &&& word[k] == '.'
    &&& all_digits(word.subrange(0, k))
    &&& all_digits(word.subrange(k + 1, word.len() as int))
}

fn digits_in(chars: &Vec<char>, from: usize, to: usize) -> (r: bool)
    requires
        from <= to <= chars@.len(),
    ensures
        r == all_digits(chars@.subrange(from as int, to as int)),
{
    let mut i: usize = from;
    while i < to
        invariant
            from <= i <= to <= chars@.len(),
            forall|j: int| from <= j < i ==> is_decimal_digit(#[trigger] chars@[j]),
        decreases to - i,
    {
        let c: char = chars[i];
        if !(c >= '0' && c <= '9') {
            assert(!is_decimal_digit(chars@.subrange(from as int, to as int)[i - from]));
            return false;
        }
        i += 1;
    }
    assert forall|j: int| 0 <= j < to - from implies is_decimal_digit(
        #[trigger] chars@.subrange(from as int, to as int)[j],
    ) by {
        assert(is_decimal_digit(chars@[from + j]));
    }
    true
}

fn decimal_chars(chars: &Vec<char>) -> (r: bool)
    ensures
        r == spec_is_decimal_number(chars@),
{
    let n: usize = chars.len();
    let mut k: usize = 0;
    while k < n && chars[k] != '.'
        invariant
            k <= n,
            n == chars@.len(),
            forall|j: int| 0 <= j < k ==> chars@[j] != '.',
        decreases n - k,
    {
        k += 1;
    }
    let found: bool = 0 < k && k < n - 1 && digits_in(chars, 0, k) && digits_in(chars, k + 1, n);
    proof {
        if found {
            assert(is_decimal_split(chars@, k as int));
        } else {
            assert forall|m: int| !is_decimal_split(chars@, m) by {
                if is_decimal_split(chars@, m) {
                    if m < k {
                        assert(chars@[m] != '.');
                    } else if m > k {
                        assert(k < n);
                        assert(is_decimal_digit(chars@.subrange(0, m)[k as int]));
                    } else {
                    }
                }
            }
        }
    }
    found
}

/// Whether `word` is a decimal number such as `3.14`.
pub fn is_decimal_number(word: &str) -> (r: bool)
    ensures
        r == spec_is_decimal_number(word@),
{
    let chars = chars_of(word);
    decimal_chars(&chars)
}

/// Whether some mark in `marks` ends a sentence.
pub open spec fn has_terminator(marks: Seq<char>) -> bool {
    exists|i: int| 0 <= i < marks.len() && spec_is_sentence_terminator(#[trigger] marks[i])
}

/// Whether `word` begins with an ASCII upper-case letter.
pub open spec fn starts_upper(word: Seq<char>) -> bool {
    word.len() > 0 && 'A' <= word[0] <= 'Z'
}

/// Whether a word follows a sentence end: the token before it, given by its
/// text and marks, carries a line break, or carries a terminator, is neither
/// an abbreviation nor a decimal number, and the word starts in upper case.
pub open spec fn follows_boundary(
    prev_text: Seq<char>,
    prev_marks: Seq<char>,
    word: Seq<char>,
) -> bool {
    ||| prev_marks.contains('\n')
    ||| {
        &&& has_terminator(prev_marks)
        &&& !spec_is_abbreviation(prev_text + prev_marks)
        &&& !spec_is_decimal_number(prev_text + prev_marks)
        &&& starts_upper(word)
    }
}

/// The first token of a stream always starts a sentence; a later one does so
/// when it follows a boundary.
pub open spec fn spec_detect_sentence_boundary(prev: Option<TokenView>, word: Seq<char>) -> bool {
    match prev {
        None => true,
        Some(p) => follows_boundary(p.text, p.punctuation, word),
    }
}

/// The value of an optional borrowed token.
pub open spec fn optional_view(token: Option<&Token>) -> Option<TokenView> {
    match token {
        None => None,
        Some(t) => Some(t@),
    }
}

fn terminator_in(marks: &Vec<char>) -> (r: bool)
    ensures
        r == has_terminator(marks@),
{
    let mut i: usize = 0;
    while i < marks.len()
        invariant
            i <= marks@.len(),
            forall|j: int| 0 <= j < i ==> !spec_is_sentence_terminator(#[trigger] marks@[j]),
        decreases marks@.len() - i,
    {
        if is_sentence_terminator(marks[i]) {
            return true;
        }
        i += 1;
    }
    false
}

/// The sentence-start decision for a word whose first character, if it has
/// one, is `first`.
fn boundary_after(prev: &Token, first: Option<char>, Ghost(word): Ghost<Seq<char>>) -> (r: bool)
    requires
        first == (if word.len() > 0 {
            Some(word[0])
        } else {
            None
        }),
    ensures
        r == follows_boundary(prev@.text, prev@.punctuation, word),
{
    if contains_char(&prev.punctuation, '\n') {
        return true;
    }
    if !terminator_in(&prev.punctuation) {
        return false;
    }
    let mut full: Vec<char> = chars_of(prev.text.as_str());
    let mut i: usize = 0;
    while i < prev.punctuation.len()
        invariant
            i <= prev.punctuation@.len(),
            full@ == prev.text@ + prev.punctuation@.subrange(0, i as int),
        decreases prev.punctuation@.len() - i,
    {
        full.push(prev.punctuation[i]);
        assert((prev.text@ + prev.punctuation@.subrange(0, i as int)).push(
            prev.punctuation@[i as int],
        ) =~= prev.text@ + prev.punctuation@.subrange(0, i + 1));
        i += 1;
    }
    assert(prev.punctuation@.subrange(0, i as int) =~= prev.punctuation@);
    if abbreviation_chars(&full) {
        return false;
    }
    if decimal_chars(&full) {
        return false;
    }
    match first {
        Some(c) => c >= 'A' && c <= 'Z',
        None => false,
    }
}

/// Whether `current_word` starts a new sentence, given the token before it.
pub fn detect_sentence_boundary(prev_token: Option<&Token>, current_word: &str) -> (r: bool)
    ensures
        r == spec_detect_sentence_boundary(optional_view(prev_token), current_word@),
        prev_token is None ==> r,
{
    match prev_token {
        None => true,
        Some(prev) => {
            let chars = chars_of(current_word);
            let first: Option<char> = if chars.len() > 0 {
                Some(chars[0])
            } else {
                None
            };
            boundary_after(prev, first, Ghost(current_word@))
        },
    }
}

/// The piece that stands for a line break.
pub open spec fn line_break() -> Seq<char> {
    seq!['\n']
}

/// What a left-to-right pass over a text has produced: the finished pieces
/// (words and line breaks) and the word that is still being read.
pub struct Scan {
    pub pieces: Seq<Seq<char>>,
    pub pending: Seq<char>,
}

/// The finished pieces, with the pending word closed if there is one.
pub open spec fn flushed(s: Scan) -> Seq<Seq<char>> {
    if s.pending.len() > 0 {
        s.pieces.push(s.pending)
    } else {
        s.pieces
    }
}

/// The pass over `text`: `'\n'` closes the pending word and adds a line
/// break, any other white space closes the pending word, every other
/// character extends it.
pub open spec fn scan(text: Seq<char>) -> Scan
    decreases text.len(),
{
    if text.len() == 0 {
        Scan { pieces: Seq::empty(), pending: Seq::empty() }
    } else {
        let before = scan(text.drop_last());
        let c = text.last();
        if c == '\n' {
            Scan { pieces: flushed(before).push(line_break()), pending: Seq::empty() }
        } else if crate::text::spec_is_whitespace(c) {
            Scan { pieces: flushed(before), pending: Seq::empty() }
        } else {
            Scan { pieces: before.pieces, pending: before.pending.push(c) }
        }
    }
}

/// The words of `text` in order, with a line break between the words of one
/// line and those of the next. No line break follows the last line.
pub open spec fn spec_pieces(text: Seq<char>) -> Seq<Seq<char>> {
    let all = flushed(scan(text));
    if text.len() > 0 && text.last() == '\n' {
        all.drop_last()
    } else {
        all
    }
}

/// The text of the token made from a piece: a line break has none.
pub open spec fn piece_text(piece: Seq<char>) -> Seq<char> {
    if piece == line_break() {
        Seq::empty()
    } else {
        word_text(piece)
    }
}

/// The marks of the token made from a piece: a line break is its own mark.
pub open spec fn piece_marks(piece: Seq<char>) -> Seq<char> {
    if piece == line_break() {
        line_break()
    } else {
        word_marks(piece)
    }
}

/// The word that the sentence-start rule looks at: a line break counts as
/// the empty word.
pub open spec fn piece_word(piece: Seq<char>) -> Seq<char> {
    if piece == line_break() {
        Seq::empty()
    } else {
        piece
    }
}

/// The token made from piece `i`.
pub open spec fn spec_token_at(pieces: Seq<Seq<char>>, i: int) -> TokenView {
    TokenView {
        text: piece_text(pieces[i]),
        punctuation: piece_marks(pieces[i]),
        is_sentence_start: i == 0 || follows_boundary(
            piece_text(pieces[i - 1]),
            piece_marks(pieces[i - 1]),
            piece_word(pieces[i]),
        ),
    }
}

/// The tokens of `text`.
pub open spec fn spec_tokenize(text: Seq<char>) -> Seq<TokenView> {
    let pieces = spec_pieces(text);
    Seq::new(pieces.len(), |i: int| spec_token_at(pieces, i))
}

/// `tokens` are the tokens made from `pieces`, one for one.
pub open spec fn tokens_match(tokens: Seq<Token>, pieces: Seq<Seq<char>>) -> bool {
    &&& tokens.len() == pieces.len()
    &&& forall|i: int| 0 <= i < tokens.len() ==> (#[trigger] tokens[i])@ == spec_token_at(pieces, i)
}

fn push_piece(
    tokens: &mut Vec<Token>,
    text: String,
    punctuation: Vec<char>,
    first: Option<char>,
    Ghost(pieces): Ghost<Seq<Seq<char>>>,
    Ghost(piece): Ghost<Seq<char>>,
)
    requires
        tokens_match(old(tokens)@, pieces),
        text@ == piece_text(piece),
        punctuation@ == piece_marks(piece),
        first == (if piece_word(piece).len() > 0 {
            Some(piece_word(piece)[0])
        } else {
            None
        }),
    ensures
        tokens_match(final(tokens)@, pieces.push(piece)),
{
    let n: usize = tokens.len();
    let is_sentence_start: bool = if n == 0 {
        true
    } else {
        boundary_after(&tokens[n - 1], first, Ghost(piece_word(piece)))
    };
    let token = Token { text, punctuation, is_sentence_start };
    tokens.push(token);
    proof {
        let extended = pieces.push(piece);
        assert forall|i: int| 0 <= i < tokens@.len() implies (#[trigger] tokens@[i])@
            == spec_token_at(extended, i) by {
            if i < n {
                assert(tokens@[i] == old(tokens)@[i]);
                assert(extended[i] == pieces[i]);
                if i > 0 {
                    assert(extended[i - 1] == pieces[i - 1]);
                }
                assert(spec_token_at(extended, i) == spec_token_at(pieces, i));
            } else {
                if n > 0 {
                    assert(extended[n - 1] == pieces[n - 1]);
                    assert(old(tokens)@[n - 1]@ == spec_token_at(pieces, n - 1));
                }
            }
        }
    }
}

fn push_word(
    tokens: &mut Vec<Token>,
    chars: &Vec<char>,
    from: usize,
    to: usize,
    Ghost(pieces): Ghost<Seq<Seq<char>>>,
)
    requires
        from < to <= chars@.len(),
        chars@[from as int] != '\n',
        tokens_match(old(tokens)@, pieces),
    ensures
        tokens_match(final(tokens)@, pieces.push(chars@.subrange(from as int, to as int))),
{
    let ghost piece = chars@.subrange(from as int, to as int);
    assert(piece[0] == chars@[from as int]);
    assert(piece != line_break());
    let k: usize = marks_boundary(chars, from, to);
    let text = string_of(chars, from, k);
    let punctuation = copy_range(chars, k, to);
    proof {
        assert(piece.subrange(0, k - from) =~= chars@.subrange(from as int, k as int));
        assert(piece.subrange(k - from, piece.len() as int) =~= chars@.subrange(
            k as int,
            to as int,
        ));
    }
    push_piece(tokens, text, punctuation, Some(chars[from]), Ghost(pieces), Ghost(piece));
}

fn push_line_break(tokens: &mut Vec<Token>, Ghost(pieces): Ghost<Seq<Seq<char>>>)
    requires
        tokens_match(old(tokens)@, pieces),
    ensures
        tokens_match(final(tokens)@, pieces.push(line_break())),
{
    let mut punctuation: Vec<char> = Vec::new();
    punctuation.push('\n');
    assert(punctuation@ =~= line_break());
    push_piece(tokens, String::new(), punctuation, None, Ghost(pieces), Ghost(line_break()));
}

/// Splits `text` into tokens: the words of each line, each with its trailing
/// marks peeled off, and a line-break token after every line but the last.
pub fn tokenize_text(text: &str) -> (tokens: Vec<Token>)
    ensures
        crate::token::token_views(tokens@) == spec_tokenize(text@),
{
    let chars = chars_of(text);
    let n: usize = chars.len();
    let mut tokens: Vec<Token> = Vec::new();
    let mut start: usize = 0;
    let mut i: usize = 0;
    while i < n
        invariant
            start <= i <= n,
            n == chars@.len(),
            scan(chars@.subrange(0, i as int)).pending == chars@.subrange(start as int, i as int),
            forall|j: int| start <= j < i ==> chars@[j] != '\n',
            tokens_match(tokens@, scan(chars@.subrange(0, i as int)).pieces),
        decreases n - i,
    {
        let c: char = chars[i];
        let ghost before = scan(chars@.subrange(0, i as int));
        proof {
            assert(chars@.subrange(0, i + 1).drop_last() =~= chars@.subrange(0, i as int));
            assert(chars@.subrange(0, i + 1).last() == c);
        }
        if c == '\n' {
            if start < i {
                push_word(&mut tokens, &chars, start, i, Ghost(before.pieces));
            }
            push_line_break(&mut tokens, Ghost(flushed(before)));
            start = i + 1;
            assert(chars@.subrange(start as int, i + 1) =~= Seq::<char>::empty());
        } else if crate::text::is_whitespace(c) {
            if start < i {
                push_word(&mut tokens, &chars, start, i, Ghost(before.pieces));
            }
            start = i + 1;
            assert(chars@.subrange(start as int, i + 1) =~= Seq::<char>::empty());
        } else {
            assert(chars@.subrange(start as int, i as int).push(c) =~= chars@.subrange(
                start as int,
                i + 1,
            ));
        }
        i += 1;
    }
    assert(chars@.subrange(0, n as int) =~= chars@);
    if start < n {
        push_word(&mut tokens, &chars, start, n, Ghost(scan(chars@).pieces));
    }
    if n > 0 && chars[n - 1] == '\n' {
        let ghost all = flushed(scan(chars@));
        assert(all.len() > 0);
        let dropped = tokens.pop();
        assert(tokens_match(tokens@, all.drop_last()));
    }
    assert(crate::token::token_views(tokens@) =~= spec_tokenize(text@));
    tokens
}

/// A word: at least one character, and no white space.
pub open spec fn is_word(piece: Seq<char>) -> bool {
    &&& piece.len() > 0
    &&& forall|i: int| 0 <= i < piece.len() ==> !crate::text::spec_is_whitespace(#[trigger] piece[i])
}

/// The characters of a text that are no white space, in order.
pub open spec fn visible(text: Seq<char>) -> Seq<char>
    decreases text.len(),
{
    if text.len() == 0 {
        Seq::empty()
    } else if crate::text::spec_is_whitespace(text.last()) {
        visible(text.drop_last())
    } else {
        visible(text.drop_last()).push(text.last())
    }
}

/// The words among the pieces, written one after the other.
pub open spec fn words_text(pieces: Seq<Seq<char>>) -> Seq<char>
    decreases pieces.len(),
{
    if pieces.len() == 0 {
        Seq::empty()
    } else if pieces.last() == line_break() {
        words_text(pieces.drop_last())
    } else {
        words_text(pieces.drop_last()) + pieces.last()
    }
}

/// How many of the pieces are line breaks.
pub open spec fn line_breaks(pieces: Seq<Seq<char>>) -> nat
    decreases pieces.len(),
{
    if pieces.len() == 0 {
        0
    } else if pieces.last() == line_break() {
        line_breaks(pieces.drop_last()) + 1
    } else {
        line_breaks(pieces.drop_last())
    }
}

/// How often `'\n'` occurs in a text.
pub open spec fn newlines(text: Seq<char>) -> nat
    decreases text.len(),
{
    if text.len() == 0 {
        0
    } else if text.last() == '\n' {
        newlines(text.drop_last()) + 1
    } else {
        newlines(text.drop_last())
    }
}

/// What holds of the pass over a text at every point: every finished piece
/// is a line break or a word, the pending word has no white space, the words
/// and the pending word together are the visible characters read so far,
/// and there is a line break for every `'\n'` read.
pub proof fn lemma_scan(text: Seq<char>)
    ensures
        forall|i: int|
            0 <= i < scan(text).pieces.len() ==> (#[trigger] scan(text).pieces[i]) == line_break()
                || is_word(scan(text).pieces[i]),
        forall|i: int|
            0 <= i < scan(text).pending.len() ==> !crate::text::spec_is_whitespace(
                #[trigger] scan(text).pending[i],
            ),
        words_text(scan(text).pieces) + scan(text).pending == visible(text),
        line_breaks(scan(text).pieces) == newlines(text),
        text.len() > 0 && text.last() == '\n' ==> scan(text).pending.len() == 0 && scan(
            text,
        ).pieces.len() > 0 && scan(text).pieces.last() == line_break(),
    decreases text.len(),
{
    if text.len() == 0 {
        assert(words_text(scan(text).pieces) + scan(text).pending =~= visible(text));
    } else {
        let before = scan(text.drop_last());
        let c = text.last();
        lemma_scan(text.drop_last());
        lemma_flushed(before);
        let closed = flushed(before);
        if c == '\n' {
            let pieces = closed.push(line_break());
            assert(pieces.drop_last() =~= closed);
            assert(pieces.last() == line_break());
            assert(crate::text::spec_is_whitespace(c));
            assert(words_text(pieces) + Seq::<char>::empty() =~= visible(text));
            assert forall|i: int| 0 <= i < pieces.len() implies (#[trigger] pieces[i])
                == line_break() || is_word(pieces[i]) by {
                if i < closed.len() {
                    assert(pieces[i] == closed[i]);
                }
            }
        } else if crate::text::spec_is_whitespace(c) {
            assert(words_text(closed) + Seq::<char>::empty() =~= visible(text));
        } else {
            let pending = before.pending.push(c);
            assert(words_text(before.pieces) + pending =~= (words_text(before.pieces)
                + before.pending).push(c));
            assert forall|i: int| 0 <= i < pending.len()
                implies !crate::text::spec_is_whitespace(#[trigger] pending[i]) by {
                if i < before.pending.len() {
                    assert(pending[i] == before.pending[i]);
                }
            }
        }
    }
}

/// Closing the pending word of a pass keeps what holds of the pass.
pub proof fn lemma_flushed(state: Scan)
    requires
        forall|i: int|
            0 <= i < state.pieces.len() ==> (#[trigger] state.pieces[i]) == line_break()
                || is_word(state.pieces[i]),
        forall|i: int|
            0 <= i < state.pending.len() ==> !crate::text::spec_is_whitespace(
                #[trigger] state.pending[i],
            ),
    ensures
        forall|i: int|
            0 <= i < flushed(state).len() ==> (#[trigger] flushed(state)[i]) == line_break()
                || is_word(flushed(state)[i]),
        words_text(flushed(state)) == words_text(state.pieces) + state.pending,
        line_breaks(flushed(state)) == line_breaks(state.pieces),
{
    if state.pending.len() > 0 {
        let closed = state.pieces.push(state.pending);
        assert(closed.drop_last() =~= state.pieces);
        assert(closed.last() == state.pending);
        assert(!crate::text::spec_is_whitespace(state.pending[0]));
        assert(line_break()[0] == '\n');
        assert(state.pending != line_break());
        assert(is_word(state.pending));
        assert forall|i: int| 0 <= i < closed.len() implies (#[trigger] closed[i]) == line_break()
            || is_word(closed[i]) by {
            if i < state.pieces.len() {
                assert(closed[i] == state.pieces[i]);
            }
        }
    } else {
        assert(words_text(state.pieces) + state.pending =~= words_text(state.pieces));
    }
}

/// The pieces of a text are its words and its line breaks: every piece is a
/// line break or a word without white space; the words, written one after
/// the other, are the characters of the text that are no white space, in
/// order; and there is one line break for every `'\n'` of the text but one
/// at its very end.
pub proof fn lemma_pieces(text: Seq<char>)
    ensures
        forall|i: int|
            0 <= i < spec_pieces(text).len() ==> (#[trigger] spec_pieces(text)[i]) == line_break()
                || is_word(spec_pieces(text)[i]),
        words_text(spec_pieces(text)) == visible(text),
        line_breaks(spec_pieces(text)) == (if text.len() > 0 && text.last() == '\n' {
            newlines(text) - 1
        } else {
            newlines(text) as int
        }),
        spec_tokenize(text).len() == spec_pieces(text).len(),
{
    lemma_scan(text);
    lemma_flushed(scan(text));
    let all = flushed(scan(text));
    if text.len() > 0 && text.last() == '\n' {
        assert(all == scan(text).pieces);
        let kept = all.drop_last();
        assert forall|i: int| 0 <= i < kept.len() implies (#[trigger] kept[i]) == line_break()
            || is_word(kept[i]) by {
            assert(kept[i] == all[i]);
        }
        assert(words_text(all) + Seq::<char>::empty() =~= words_text(all));
    }
}

/// A token that was made from a word spells that word: its text followed
/// by its marks. A token that was made from a line break has no text and
/// the line break as its only mark.
pub proof fn lemma_token_spells_its_piece(text: Seq<char>, i: int)
    requires
        0 <= i < spec_tokenize(text).len(),
    ensures
        spec_pieces(text)[i] != line_break() ==> spec_tokenize(text)[i].text + spec_tokenize(
            text,
        )[i].punctuation == spec_pieces(text)[i],
        spec_pieces(text)[i] == line_break() ==> spec_tokenize(text)[i].text.len() == 0
            && spec_tokenize(text)[i].punctuation == line_break(),
{
    lemma_marks_start(spec_pieces(text)[i]);
}

/// The marks that a token can carry.
pub open spec fn in_mark_set(c: char) -> bool {
    is_mark(c) || c == '\n'
}

/// The first token of every text starts a sentence.
pub proof fn lemma_first_token_starts_sentence(text: Seq<char>)
    requires
        spec_tokenize(text).len() > 0,
    ensures
        spec_tokenize(text)[0].is_sentence_start,
{
}

/// Every mark of every token is one of `.`, `,`, `?`, `!` and the line break.
pub proof fn lemma_token_marks_in_set(text: Seq<char>, i: int, j: int)
    requires
        0 <= i < spec_tokenize(text).len(),
        0 <= j < spec_tokenize(text)[i].punctuation.len(),
    ensures
        in_mark_set(spec_tokenize(text)[i].punctuation[j]),
{
    let piece = spec_pieces(text)[i];
    if piece != line_break() {
        lemma_marks_start(piece);
        assert(word_marks(piece)[j] == piece[marks_start(piece) + j]);
    }
}

} // verus!
