//! A small parser that closes the blocks its input leaves open.
//!
//! The input is a line of words separated by single spaces. [`Input`] hands
//! the words out one by one, [`Lexer`] marks the words that open a block, and
//! [`Parser`] puts the words together again. When the parser sees a word that
//! opens a block it leaves a message for the input, which then completes the
//! next word with the closing brace unless the word has one.

use vstd::prelude::*;
use vstd::string::*;

verus! {

/// `s` ends with `suffix`.
pub open spec fn ends_with(s: Seq<char>, suffix: Seq<char>) -> bool {
    suffix.len() <= s.len() && s.subrange(s.len() - suffix.len(), s.len() as int) == suffix
}

/// `s` starts with `prefix`.
pub open spec fn starts_with(s: Seq<char>, prefix: Seq<char>) -> bool {
    prefix.len() <= s.len() && s.subrange(0, prefix.len() as int) == prefix
}

/// The position of the first space of `s` at or after `from`, or the length
/// of `s` if there is none.
pub open spec fn word_end(s: Seq<char>, from: int) -> int
    decreases s.len() - from,
{
    if 0 <= from < s.len() && s[from] != ' ' {
        word_end(s, from + 1)
    } else {
        from
    }
}

/// `word_end` finds the first space indeed.
pub proof fn word_end_is_first_space(s: Seq<char>, from: int)
    requires
        0 <= from <= s.len(),
    ensures
        from <= word_end(s, from) <= s.len(),
        forall|i: int| from <= i < word_end(s, from) ==> s[i] != ' ',
        word_end(s, from) < s.len() ==> s[word_end(s, from)] == ' ',
    decreases s.len() - from,
{
    if from < s.len() && s[from] != ' ' {
        word_end_is_first_space(s, from + 1);
    }
}

/// The first word of `s`: what stands before its first space.
pub open spec fn first_word(s: Seq<char>) -> Seq<char> {
    s.subrange(0, word_end(s, 0))
}

/// What is left of `s` without its first word and the space that ends it.
pub open spec fn after_first_word(s: Seq<char>) -> Seq<char> {
    if word_end(s, 0) < s.len() {
        s.subrange(word_end(s, 0) + 1, s.len() as int)
    } else {
        Seq::empty()
    }
}

/// `word` as the input hands it out while `message` waits for it: with the
/// message's text at its end, unless the word ends with that text already.
pub open spec fn completed(word: Seq<char>, message: Option<Seq<char>>) -> Seq<char> {
    match message {
        Some(text) => if ends_with(word, text) {
            word
        } else {
            word + text
        },
        None => word,
    }
}

/// The marker that the lexer puts before a word that opens a block.
pub open spec fn block_start() -> Seq<char> {
    "block_start:"@
}

/// What the lexer hands out when the input is used up.
pub open spec fn end_marker() -> Seq<char> {
    "end"@
}

/// The text that closes a block.
pub open spec fn closing() -> Seq<char> {
    "}"@
}

/// What the lexer makes of `word`.
pub open spec fn lexed(word: Seq<char>) -> Seq<char> {
    if word.len() > 0 && word[0] == '{' {
        block_start() + word
    } else if word.len() == 0 {
        end_marker()
    } else {
        word
    }
}

/// The word that the parser keeps for `token`: the token without the
/// block marker.
pub open spec fn kept(token: Seq<char>) -> Seq<char> {
    if starts_with(token, block_start()) {
        token.skip(block_start().len() as int)
    } else {
        token
    }
}

/// The message that the parser leaves for the input after `token`.
pub open spec fn message_after(token: Seq<char>) -> Option<Seq<char>> {
    if starts_with(token, block_start()) {
        Some(closing())
    } else {
        None
    }
}

/// The token that follows `token` when `input` is what remains to be read.
pub open spec fn next_token(token: Seq<char>, input: Seq<char>) -> Seq<char> {
    lexed(completed(first_word(input), message_after(token)))
}

/// How many tokens can still follow `token` once the input is used up.
pub open spec fn tail_budget(token: Seq<char>) -> nat {
    if token == end_marker() {
        0
    } else if starts_with(token, block_start()) {
        2
    } else {
        1
    }
}

/// What the three texts of the grammar hold.
pub proof fn grammar_texts()
    ensures
        block_start() == seq!['b', 'l', 'o', 'c', 'k', '_', 's', 't', 'a', 'r', 't', ':'],
        end_marker() == seq!['e', 'n', 'd'],
        closing() == seq!['}'],
{
    reveal_strlit("block_start:");
    reveal_strlit("end");
    reveal_strlit("}");
    assert(closing() =~= seq!['}']);
}

/// With each token either the input gets shorter or fewer tokens can follow.
pub proof fn parsing_advances(token: Seq<char>, input: Seq<char>)
    requires
        token != end_marker(),
    ensures
        after_first_word(input).len() < input.len() || (after_first_word(input).len()
            == input.len() && tail_budget(next_token(token, input)) < tail_budget(token)),
{
    grammar_texts();
    word_end_is_first_space(input, 0);
    if input.len() == 0 && starts_with(token, block_start()) {
        // Nothing is left to read, so the next token is the closing text,
        // after which only the end marker can follow.
        assert(next_token(token, input)[0] == '}');
    }
}

/// The words that the parser collects from `token` on, when `input` is what
/// remains to be read: none if the token is the end marker, else the word
/// kept for the token, followed by the words collected from the next token.
pub open spec fn parsed_words(token: Seq<char>, input: Seq<char>) -> Seq<Seq<char>>
    decreases input.len(), tail_budget(token),
{
    if token == end_marker() {
        Seq::empty()
    } else {
        proof {
            parsing_advances(token, input);
        }
        seq![kept(token)] + parsed_words(next_token(token, input), after_first_word(input))
    }
}

/// The input that the parser leaves unread when it stops.
pub open spec fn unparsed_input(token: Seq<char>, input: Seq<char>) -> Seq<char>
    decreases input.len(), tail_budget(token),
{
    if token == end_marker() {
        input
    } else {
        proof {
            parsing_advances(token, input);
        }
        unparsed_input(next_token(token, input), after_first_word(input))
    }
}

/// `words` written one after the other with `separator` between them.
pub open spec fn joined(words: Seq<Seq<char>>, separator: Seq<char>) -> Seq<char>
    decreases words.len(),
{
    if words.len() == 0 {
        Seq::empty()
    } else if words.len() == 1 {
        words[0]
    } else {
        joined(words.drop_last(), separator) + separator + words.last()
    }
}

/// What parsing `input` gives while `message` waits for the first word.
pub open spec fn parsed_line(input: Seq<char>, message: Option<Seq<char>>) -> Seq<char> {
    joined(
        parsed_words(lexed(completed(first_word(input), message)), after_first_word(input)),
        seq![' '],
    )
}

/// The position of the first space of `s`, or the number of its characters
/// if it holds none.
fn find_space(s: &str) -> (at: usize)
    ensures
        at == word_end(s@, 0),
        at <= s@.len(),
{
    let n = s.unicode_len();
    let mut i: usize = 0;
    while i < n && s.get_char(i) != ' '
        invariant
            i <= n,
            n == s@.len(),
            word_end(s@, 0) == word_end(s@, i as int),
        decreases n - i,
    {
        i += 1;
    }
    proof {
        word_end_is_first_space(s@, 0);
    }
    i
}

/// Whether `s` ends with `suffix`.
fn str_ends_with(s: &str, suffix: &str) -> (found: bool)
    ensures
        found == ends_with(s@, suffix@),
{
    let n = s.unicode_len();
    let m = suffix.unicode_len();
    if m > n {
        return false;
    }
    let tail = String::from_str(s.substring_char(n - m, n));
    let wanted = String::from_str(suffix);
    tail == wanted
}

/// Whether `s` starts with `prefix`.
fn str_starts_with(s: &str, prefix: &str) -> (found: bool)
    ensures
        found == starts_with(s@, prefix@),
{
    let n = s.unicode_len();
    let m = prefix.unicode_len();
    if m > n {
        return false;
    }
    let head = String::from_str(s.substring_char(0, m));
    let wanted = String::from_str(prefix);
    head == wanted
}

/// What the parser tells the input: the text that the next word has to end
/// with.
pub struct ParserMessage {
    autocomplete: String,
}

impl View for ParserMessage {
    type V = Seq<char>;

    closed spec fn view(&self) -> Seq<char> {
        self.autocomplete@
    }
}

impl ParserMessage {
    /// A message that asks for `autocomplete` at the end of the next word.
    pub fn new(autocomplete: String) -> (message: Self)
        ensures
            message@ == autocomplete@,
    {
        ParserMessage { autocomplete }
    }
}

/// The line that is being read, and the message that waits for its next
/// word.
pub struct Input {
    channel: Option<ParserMessage>,
    input: String,
}

impl Input {
    /// The text that has not been read yet.
    pub closed spec fn unread(&self) -> Seq<char> {
        self.input@
    }

    /// The text of the message that waits for the next word, if any.
    pub closed spec fn pending(&self) -> Option<Seq<char>> {
        match self.channel {
            Some(message) => Some(message@),
            None => None,
        }
    }

    /// An input that reads `input` and for which no message waits.
    pub fn new(input: String) -> (created: Self)
        ensures
            created.unread() == input@,
            created.pending().is_none(),
    {
        Input { channel: None, input }
    }

    /// Leaves `message` for the next word, in place of any message that
    /// waits already.
    pub fn send(&mut self, message: ParserMessage)
        ensures
            final(self).unread() == old(self).unread(),
            final(self).pending() == Some(message@),
    {
        self.channel = Some(message);
    }

    /// Hands out the next word: the text up to the first space, completed
    /// as the waiting message asks. The word and its space are then read,
    /// and no message waits any more.
    pub fn read(&mut self) -> (word: String)
        ensures
            word@ == completed(first_word(old(self).unread()), old(self).pending()),
            final(self).unread() == after_first_word(old(self).unread()),
            final(self).pending().is_none(),
    {
        let whitespace = find_space(self.input.as_str());
        let length = self.input.as_str().unicode_len();
        let expression = String::from_str(self.input.as_str().substring_char(0, whitespace));
        let rest = if whitespace < length {
            String::from_str(self.input.as_str().substring_char(whitespace + 1, length))
        } else {
            String::new()
        };
        self.input = rest;
        match self.channel.take() {
            Some(message) => {
                if !str_ends_with(expression.as_str(), message.autocomplete.as_str()) {
                    expression.concat(message.autocomplete.as_str())
                } else {
                    expression
                }
            },
            None => expression,
        }
    }
}

/// Turns the words of an input into tokens.
pub struct Lexer {
    input: Input,
}

impl Lexer {
    /// The input that the lexer reads from.
    pub closed spec fn source(&self) -> Input {
        self.input
    }

    /// A lexer that reads from `input`.
    pub fn new(input: Input) -> (created: Self)
        ensures
            created.source() == input,
    {
        Lexer { input }
    }

    /// Hands out the next token: the next word of the input, with the block
    /// marker before it if it opens a block, or the end marker if the word
    /// is empty.
    pub fn call(&mut self) -> (token: String)
        ensures
            token@ == lexed(
                completed(first_word(old(self).source().unread()), old(self).source().pending()),
            ),
            final(self).source().unread() == after_first_word(old(self).source().unread()),
            final(self).source().pending().is_none(),
    {
        let from_input = self.input.read();
        if from_input.as_str().unicode_len() > 0 && from_input.as_str().get_char(0) == '{' {
            return String::from_str("block_start:").concat(from_input.as_str());
        }
        if from_input.as_str().unicode_len() == 0 {
            return String::from_str("end");
        }
        from_input
    }
}

/// Reads a line through a lexer and writes it out with its blocks closed.
pub struct Parser {
    lexer: Lexer,
}

impl Parser {
    /// The text that has not been parsed yet.
    pub closed spec fn unread(&self) -> Seq<char> {
        self.lexer.input.unread()
    }

    /// The text of the message that waits for the next word, if any.
    pub closed spec fn pending(&self) -> Option<Seq<char>> {
        self.lexer.input.pending()
    }

    /// A parser for the line `input`.
    pub fn new(input: String) -> (created: Self)
        ensures
            created.unread() == input@,
            created.pending().is_none(),
    {
        Parser { lexer: Lexer::new(Input::new(input)) }
    }

    /// A parser that reads through `lexer`.
    pub fn with_lexer(lexer: Lexer) -> (created: Self)
        ensures
            created.unread() == lexer.source().unread(),
            created.pending() == lexer.source().pending(),
    {
        Parser { lexer }
    }

    /// Parses the line up to its first empty word or its first word `end`,
    /// and returns the words it read, separated by single spaces, each word
    /// after one that opens a block completed with the closing brace.
    pub fn parse(&mut self) -> (line: String)
        ensures
            line@ == parsed_line(old(self).unread(), old(self).pending()),
            final(self).unread() == unparsed_input(
                lexed(completed(first_word(old(self).unread()), old(self).pending())),
                after_first_word(old(self).unread()),
            ),
            final(self).pending().is_none(),
    {
        let mut parsed: Vec<String> = Vec::new();
        let mut value = self.lexer.call();
        let ghost first = value@;
        let ghost rest = self.unread();
        let end = String::from_str("end");
        while value != end
            invariant
                end@ == end_marker(),
                self.pending().is_none(),
                parsed_words(first, rest) == parsed@.map_values(|word: String| word@)
                    + parsed_words(value@, self.unread()),
                unparsed_input(first, rest) == unparsed_input(value@, self.unread()),
            decreases self.unread().len(), tail_budget(value@),
        {
            proof {
                parsing_advances(value@, self.unread());
            }
            let mut v = value;
            if str_starts_with(v.as_str(), "block_start:") {
                let length = v.as_str().unicode_len();
                proof {
                    grammar_texts();
                }
                let fixed_v = String::from_str(v.as_str().substring_char(12, length));
                self.lexer.input.send(ParserMessage::new(String::from_str("}")));
                v = fixed_v;
            }
            parsed.push(v);
            value = self.lexer.call();
        }
        join_words(&parsed)
    }
}

/// Writes `words` one after the other with a space between them.
fn join_words(words: &Vec<String>) -> (line: String)
    ensures
        line@ == joined(words@.map_values(|word: String| word@), seq![' ']),
{
    let ghost views = words@.map_values(|word: String| word@);
    let mut line = String::new();
    let mut i: usize = 0;
    while i < words.len()
        invariant
            i <= words.len(),
            views == words@.map_values(|word: String| word@),
            line@ == joined(views.take(i as int), seq![' ']),
        decreases words.len() - i,
    {
        proof {
            reveal_strlit(" ");
            assert(views.take(i + 1).drop_last() =~= views.take(i as int));
        }
        if i > 0 {
            line.append(" ");
        }
        line.append(words[i].as_str());
        i += 1;
    }
    proof {
        assert(views.take(i as int) =~= views);
    }
    line
}

} // verus!
