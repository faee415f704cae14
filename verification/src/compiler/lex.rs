//! Cutting assembly text into tokens.
//!
//! The text is read as bytes. A token is a comma, a run of white space, or
//! a run of other characters that ends before white space, a comma, a
//! minus sign, or a byte outside ASCII. So far the lexer knows the
//! instruction `SNE` and the registers; at any other word it stops.
use vstd::prelude::*;
use vstd::slice::slice_subrange;
use vstd::string::StringSliceAdditionalSpecFns;

verus! {

/// What a token is.
#[derive(Debug, Clone, PartialEq)]
pub enum TokenType {
    /// An instruction mnemonic.
    Instruction(InstructionType),
    /// `V0` to `VF`.
    VRegister(u8),
    /// `I`.
    IRegister,
    /// `DT`, the delay timer.
    DtRegister,
    /// `ST`, the sound timer.
    StRegister,
    /// `K`, the key input.
    KeyRegister,
    /// `F`, the font.
    FontRegister,
    /// `B`, the decimal digits.
    BcdRegister,
    /// `0x200`, `0x50` and the like.
    HexLiteral(u16),
    /// `5`, `15` and the like, for sprite heights and scroll amounts.
    DecimalLiteral(u8),
    /// `,`
    Comma,
    /// `[`
    LeftBracket,
    /// `]`
    RightBracket,
    /// `-`, for register ranges such as `V2-V5`.
    Minus,
    Whitespace,
    Newline,
    /// `; comment text`
    Comment,
    Eof,
    /// Text that is no token.
    Invalid(String),
}

/// The instruction mnemonics.
#[derive(Debug, Clone, Copy, PartialEq, Eq, Structural)]
pub enum InstructionType {
    Scd,
    Scu,
    Cls,
    Ret,
    Scr,
    Scl,
    Exit,
    High,
    Low,
    Jp,
    Call,
    Se,
    Sne,
    Ld,
    Add,
    Sub,
    Subn,
    Or,
    And,
    Xor,
    Shr,
    Shl,
    Drw,
    Rnd,
    Skp,
    Sknp,
}

/// A token and the place it was found at.
#[derive(Debug, Clone)]
pub struct Token<'a> {
    pub token_type: TokenType,
    /// The bytes of the token in the text.
    pub text: &'a [u8],
    /// Line number.
    pub line: usize,
    /// Column position.
    pub column: usize,
}

/// The text to be cut into tokens.
pub struct Parser<'a> {
    raw_text: &'a str,
}

/// The tokens of a text, one after the other.
pub struct Tokens<'a> {
    parser: &'a Parser<'a>,
    line: usize,
    column: usize,
    index: usize,
}

/// White space, as far as ASCII has any: blank, tab, line feed, vertical
/// tab, form feed, carriage return.
pub open spec fn is_space(byte: u8) -> bool {
    byte == 0x20 || 0x09 <= byte <= 0x0D
}

/// A comma or a minus sign.
pub open spec fn is_operator(byte: u8) -> bool {
    byte == 0x2C || byte == 0x2D
}

/// The lower case of an ASCII letter; any other byte as it is.
pub open spec fn lower(byte: u8) -> u8 {
    if 0x41 <= byte <= 0x5A {
        (byte + 32) as u8
    } else {
        byte
    }
}

/// Where the run that reaches `from` ends: at the end of the text, or
/// before the first byte that is outside ASCII, that is an operator, or
/// that is white space when the run is not, or the other way round.
pub open spec fn run_end(bytes: Seq<u8>, from: int, in_space: bool) -> int
    decreases bytes.len() - from,
{
    if 0 <= from < bytes.len() && bytes[from] < 128 && is_space(bytes[from]) == in_space
        && !is_operator(bytes[from]) {
        run_end(bytes, from + 1, in_space)
    } else {
        from
    }
}

/// The value of a decimal digit.
pub open spec fn digit(byte: u8) -> Option<u8> {
    if 0x30 <= byte <= 0x39 {
        Some((byte - 0x30) as u8)
    } else {
        None
    }
}

/// The number that one or two bytes spell: a digit, two digits, or a plus
/// sign and a digit.
pub open spec fn small_number(text: Seq<u8>) -> Option<u8> {
    if text.len() == 1 {
        digit(text[0])
    } else if text.len() == 2 {
        match (digit(text[0]), digit(text[1])) {
            (Some(tens), Some(ones)) => Some((10 * tens + ones) as u8),
            (None, Some(ones)) => if text[0] == 0x2B {
                Some(ones)
            } else {
                None
            },
            _ => None,
        }
    } else {
        None
    }
}

/// Whether `word` spells `sne`, in either case.
pub open spec fn is_sne(word: Seq<u8>) -> bool {
    word.len() == 3 && lower(word[0]) == 0x73 && lower(word[1]) == 0x6E && lower(word[2]) == 0x65
}

/// What a word that is not white space is, if the lexer knows it: `SNE`,
/// or a register, which is any two bytes or a `V` and two more, the bytes
/// after the first spelling its number.
pub open spec fn word_kind(word: Seq<u8>) -> Option<TokenType> {
    if is_sne(word) {
        Some(TokenType::Instruction(InstructionType::Sne))
    } else if word.len() == 2 || (word.len() == 3 && lower(word[0]) == 0x76) {
        match small_number(word.subrange(1, word.len() as int)) {
            Some(number) => Some(TokenType::VRegister(number)),
            None => None,
        }
    } else {
        None
    }
}

/// Where the token that starts at `start` ends. At the end of the text and
/// at a byte outside ASCII there is no token and the answer is `start`.
pub open spec fn token_end(bytes: Seq<u8>, start: int) -> int {
    if !(0 <= start < bytes.len()) || bytes[start] >= 128 {
        start
    } else if bytes[start] == 0x2C {
        start + 1
    } else {
        run_end(
            bytes,
            if is_operator(bytes[start]) {
                start + 1
            } else {
                start
            },
            is_space(bytes[start]),
        )
    }
}

/// What the token that starts at `start` is, if there is one that the
/// lexer knows.
pub open spec fn token_kind(bytes: Seq<u8>, start: int) -> Option<TokenType> {
    if !(0 <= start < bytes.len()) || bytes[start] >= 128 {
        None
    } else if bytes[start] == 0x2C {
        Some(TokenType::Comma)
    } else if is_space(bytes[start]) {
        Some(TokenType::Whitespace)
    } else {
        word_kind(bytes.subrange(start, token_end(bytes, start)))
    }
}

/// The tokens that the lexer finds from `start` on, each with its kind,
/// its first byte and the byte after its last, up to the first place where
/// there is no token that it knows.
pub open spec fn tokens_from(bytes: Seq<u8>, start: int) -> Seq<(TokenType, int, int)>
    decreases bytes.len() - start,
{
    let end = token_end(bytes, start);
    match token_kind(bytes, start) {
        Some(kind) => if start < end <= bytes.len() {
            seq![(kind, start, end)] + tokens_from(bytes, end)
        } else {
            Seq::empty()
        },
        None => Seq::empty(),
    }
}

/// A run ends at or after the place it is followed from, within the text.
pub proof fn lemma_run_end_bounds(bytes: Seq<u8>, from: int, in_space: bool)
    requires
        0 <= from <= bytes.len(),
    ensures
        from <= run_end(bytes, from, in_space) <= bytes.len(),
    decreases bytes.len() - from,
{
    if from < bytes.len() && bytes[from] < 128 && is_space(bytes[from]) == in_space && !is_operator(
        bytes[from],
    ) {
        lemma_run_end_bounds(bytes, from + 1, in_space);
    }
}

/// A token is never empty: where one starts, it ends further on.
pub proof fn lemma_token_not_empty(bytes: Seq<u8>, start: int)
    requires
        0 <= start < bytes.len(),
        bytes[start] < 128,
    ensures
        start < token_end(bytes, start) <= bytes.len(),
{
    if bytes[start] != 0x2C {
        lemma_run_end_bounds(bytes, start + 1, is_space(bytes[start]));
    }
}

fn byte_is_space(byte: u8) -> (r: bool)
    ensures
        r == is_space(byte),
{
    byte == 0x20 || (0x09 <= byte && byte <= 0x0D)
}

fn byte_is_operator(byte: u8) -> (r: bool)
    ensures
        r == is_operator(byte),
{
    byte == 0x2C || byte == 0x2D
}

fn byte_lower(byte: u8) -> (r: u8)
    ensures
        r == lower(byte),
{
    if 0x41 <= byte && byte <= 0x5A {
        byte + 32
    } else {
        byte
    }
}

fn byte_digit(byte: u8) -> (r: Option<u8>)
    ensures
        r == digit(byte),
{
    if 0x30 <= byte && byte <= 0x39 {
        Some(byte - 0x30)
    } else {
        None
    }
}

/// The number that `text` spells, if it is one or two bytes long and
/// spells one.
fn read_small_number(text: &[u8]) -> (r: Option<u8>)
    ensures
        r == small_number(text@),
{
    if text.len() == 1 {
        byte_digit(text[0])
    } else if text.len() == 2 {
        match (byte_digit(text[0]), byte_digit(text[1])) {
            (Some(tens), Some(ones)) => Some(10 * tens + ones),
            (None, Some(ones)) => if text[0] == 0x2B {
                Some(ones)
            } else {
                None
            },
            _ => None,
        }
    } else {
        None
    }
}

/// What the word is, if the lexer knows it.
fn read_word(word: &[u8]) -> (r: Option<TokenType>)
    ensures
        r == word_kind(word@),
{
    if word.len() == 3 && byte_lower(word[0]) == 0x73 && byte_lower(word[1]) == 0x6E && byte_lower(
        word[2],
    ) == 0x65 {
        Some(TokenType::Instruction(InstructionType::Sne))
    } else if word.len() == 2 || (word.len() == 3 && byte_lower(word[0]) == 0x76) {
        match read_small_number(slice_subrange(word, 1, word.len())) {
            Some(number) => Some(TokenType::VRegister(number)),
            None => None,
        }
    } else {
        None
    }
}

impl<'a> Token<'a> {
    pub fn new(token_type: TokenType, text: &'a [u8], line: usize, column: usize) -> (token: Self)
        ensures
            token.token_type == token_type,
            token.text == text,
            token.line == line,
            token.column == column,
    {
        Token { token_type, text, line, column }
    }
}

impl<'a> Tokens<'a> {
    /// The position never leaves the text.
    #[verifier::type_invariant]
    spec fn within_text(self) -> bool {
        self.index <= self.parser.raw_text.spec_bytes().len()
    }

    /// The bytes of the text.
    pub closed spec fn bytes(&self) -> Seq<u8> {
        self.parser.raw_text.spec_bytes()
    }

    /// Where in the text the next token starts.
    pub closed spec fn position(&self) -> int {
        self.index as int
    }

    /// The line and the column that the next token is given.
    pub closed spec fn place(&self) -> (usize, usize) {
        (self.line, self.column)
    }

    /// The tokens of the parser's text, starting at its first byte, in line
    /// 0 and column 0.
    pub fn new(parser: &'a Parser<'a>) -> (tokens: Tokens<'a>)
        ensures
            tokens.bytes() == parser.bytes(),
            tokens.position() == 0,
            tokens.place() == (0usize, 0usize),
    {
        Tokens { parser, line: 0, column: 0, index: 0 }
    }

    /// The next token, if the text goes on with one that the lexer knows.
    /// Either way the position moves to where the token ends.
    pub fn next(&mut self) -> (token: Option<Token<'a>>)
        ensures
            final(self).bytes() == old(self).bytes(),
            final(self).place() == old(self).place(),
            final(self).position() == token_end(old(self).bytes(), old(self).position()),
            old(self).position() <= final(self).position() <= old(self).bytes().len(),
            match token_kind(old(self).bytes(), old(self).position()) {
                Some(kind) => token matches Some(t) && t.token_type == kind && t.text@
                    == old(self).bytes().subrange(old(self).position(), final(self).position())
                    && (t.line, t.column) == old(self).place(),
                None => token is None,
            },
            token is Some ==> old(self).position() < final(self).position(),
    {
        proof {
            use_type_invariant(&*self);
        }
        let bytes: &'a [u8] = self.parser.raw_text.as_bytes();
        let start = self.index;
        if start >= bytes.len() || bytes[start] >= 128 {
            return None;
        }
        proof {
            lemma_token_not_empty(bytes@, start as int);
        }
        let first = bytes[start];
        if first == 0x2C {
            self.index = start + 1;
            return Some(
                Token::new(
                    TokenType::Comma,
                    slice_subrange(bytes, start, start + 1),
                    self.line,
                    self.column,
                ),
            );
        }
        let in_space = byte_is_space(first);
        let mut end = if byte_is_operator(first) {
            start + 1
        } else {
            start
        };
        let ghost from = end as int;
        proof {
            lemma_run_end_bounds(bytes@, from, in_space);
        }
        while end < bytes.len() && bytes[end] < 128 && byte_is_space(bytes[end]) == in_space
            && !byte_is_operator(bytes[end])
            invariant
                from <= end <= bytes@.len(),
                run_end(bytes@, end as int, in_space) == run_end(bytes@, from, in_space),
            decreases bytes@.len() - end,
        {
            end = end + 1;
        }
        self.index = end;
        let text = slice_subrange(bytes, start, end);
        if in_space {
            Some(Token::new(TokenType::Whitespace, text, self.line, self.column))
        } else {
            match read_word(text) {
                Some(kind) => Some(Token::new(kind, text, self.line, self.column)),
                None => None,
            }
        }
    }

    /// All tokens up to the first place where `next` has none.
    pub fn collect(self) -> (tokens: Vec<Token<'a>>)
        ensures
            tokens@.len() == tokens_from(self.bytes(), self.position()).len(),
            forall|k: int|
                0 <= k < tokens@.len() ==> {
                    let found = #[trigger] tokens_from(self.bytes(), self.position())[k];
                    &&& tokens@[k].token_type == found.0
                    &&& tokens@[k].text@ == self.bytes().subrange(found.1, found.2)
                    &&& (tokens@[k].line, tokens@[k].column) == self.place()
                },
    {
        proof {
            use_type_invariant(&self);
        }
        let mut rest = self;
        let mut tokens: Vec<Token<'a>> = Vec::new();
        let mut more = true;
        while more
            invariant
                rest.bytes() == self.bytes(),
                rest.place() == self.place(),
                0 <= rest.position() <= rest.bytes().len(),
                more ==> tokens_from(self.bytes(), self.position()) =~= Seq::new(
                    tokens@.len(),
                    |k: int| tokens_from(self.bytes(), self.position())[k],
                ) + tokens_from(self.bytes(), rest.position()),
                !more ==> tokens@.len() == tokens_from(self.bytes(), self.position()).len(),
                tokens@.len() <= tokens_from(self.bytes(), self.position()).len(),
                forall|k: int|
                    0 <= k < tokens@.len() ==> {
                        let found = #[trigger] tokens_from(self.bytes(), self.position())[k];
                        &&& tokens@[k].token_type == found.0
                        &&& tokens@[k].text@ == self.bytes().subrange(found.1, found.2)
                        &&& (tokens@[k].line, tokens@[k].column) == self.place()
                    },
            decreases rest.bytes().len() - rest.position() + if more { 1int } else { 0int },
        {
            let ghost before = rest.position();
            let ghost all = tokens_from(self.bytes(), self.position());
            let ghost tail = tokens_from(self.bytes(), before);
            match rest.next() {
                Some(token) => {
                    proof {
                        assert(tail =~= seq![(token.token_type, before, rest.position())]
                            + tokens_from(self.bytes(), rest.position()));
                        assert(all[tokens@.len() as int] == tail[0]);
                    }
                    tokens.push(token);
                },
                None => {
                    proof {
                        assert(tail =~= Seq::empty());
                    }
                    more = false;
                },
            }
        }
        tokens
    }
}

impl<'a> Parser<'a> {
    /// The bytes of the text.
    pub closed spec fn bytes(&self) -> Seq<u8> {
        self.raw_text.spec_bytes()
    }

    pub fn new(raw_text: &'a str) -> (parser: Parser<'a>)
        ensures
            parser.bytes() == raw_text.spec_bytes(),
    {
        Parser { raw_text }
    }

    /// The tokens of the text, from its start.
    pub fn parse(&self) -> (tokens: Tokens<'_>)
        ensures
            tokens.bytes() == self.bytes(),
            tokens.position() == 0,
            tokens.place() == (0usize, 0usize),
    {
        Tokens::new(self)
    }
}

} // verus!
