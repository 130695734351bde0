//! The unit of presentation: one word with the punctuation that followed it.

use vstd::prelude::*;

verus! {

/// One timed unit of text.
#[derive(Debug, PartialEq, Eq, Clone)]
pub struct Token {
    /// The word with its trailing punctuation removed.
    pub text: String,
    /// The trailing punctuation marks, in the order in which they stood. A line break
    /// is a token with empty text and the single mark `'\n'`.
    pub punctuation: Vec<char>,
    /// Whether this token starts a new sentence.
    pub is_sentence_start: bool,
}

/// The mathematical value of a [`Token`].
pub struct TokenView {
    pub text: Seq<char>,
    pub punctuation: Seq<char>,
    pub is_sentence_start: bool,
}

impl View for Token {
    type V = TokenView;

    open spec fn view(&self) -> TokenView {
        TokenView {
            text: self.text@,
            punctuation: self.punctuation@,
            is_sentence_start: self.is_sentence_start,
        }
    }
}

impl Token {
    /// A copy of this token with the same text, marks and flag.
    pub fn duplicate(&self) -> (copy: Token)
        ensures
            copy@ == self@,
    {
        let mut punctuation: Vec<char> = Vec::new();
        let mut i: usize = 0;
        while i < self.punctuation.len()
            invariant
                i <= self.punctuation@.len(),
                punctuation@ == self.punctuation@.subrange(0, i as int),
            decreases self.punctuation@.len() - i,
        {
            punctuation.push(self.punctuation[i]);
            assert(self.punctuation@.subrange(0, i as int).push(self.punctuation@[i as int])
                =~= self.punctuation@.subrange(0, i + 1));
            i += 1;
        }
        assert(self.punctuation@.subrange(0, i as int) =~= self.punctuation@);
        Token { text: self.text.clone(), punctuation, is_sentence_start: self.is_sentence_start }
    }
}

/// The values of a sequence of tokens, in order.
pub open spec fn token_views(tokens: Seq<Token>) -> Seq<TokenView> {
    Seq::new(tokens.len(), |i: int| tokens[i]@)
}

} // verus!
