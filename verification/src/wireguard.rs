//! The peer source: how its listing is read, and what it answers to a new
//! client.
//!
//! The listing is the text that `wg show all allowed-ips` prints: one line
//! for each peer, holding the interface, the peer's public key and its
//! address, separated by white space.

use vstd::prelude::*;
use crate::app::Command;
use crate::dto::Client;
use crate::dto::ClientView;
use crate::dto::client_views;
use crate::dto::optional_client_view;
use crate::text::texts;

verus! {

/// Why the peer source did not do what it was asked.
#[derive(Clone, Copy, Debug, PartialEq, Eq, Structural)]
pub enum ProviderError {
    /// The peers could not be listed.
    Enumeration,
    /// The peer source refused a client.
    Rejected,
    /// A change could not be applied.
    Apply,
}

impl ProviderError {
    /// The words that report the failure.
    pub open spec fn words(self) -> Seq<char> {
        match self {
            ProviderError::Enumeration => "The peers could not be listed."@,
            ProviderError::Rejected => "The peer source refused the client."@,
            ProviderError::Apply => "The change could not be applied."@,
        }
    }

    /// The words that report the failure.
    pub fn message(&self) -> (text: String)
        ensures
            text@ == self.words(),
    {
        match self {
            ProviderError::Enumeration => "The peers could not be listed.".to_owned(),
            ProviderError::Rejected => "The peer source refused the client.".to_owned(),
            ProviderError::Apply => "The change could not be applied.".to_owned(),
        }
    }
}

/// The characters that separate the words of a line: those with the Unicode
/// property White_Space.
pub open spec fn is_whitespace(c: char) -> bool {
    let code = c as u32;
    ||| 0x09 <= code <= 0x0D
    ||| code == 0x20
    ||| code == 0x85
    ||| code == 0xA0
    ||| code == 0x1680
    ||| 0x2000 <= code <= 0x200A
    ||| code == 0x2028
    ||| code == 0x2029
    ||| code == 0x202F
    ||| code == 0x205F
    ||| code == 0x3000
}

/// The pieces of `text` between its line feeds, empty ones included. A text
/// with n line feeds has n + 1 pieces.
pub open spec fn pieces_of(text: Seq<char>) -> Seq<Seq<char>>
    decreases text.len(),
{
    if text.len() == 0 {
        seq![Seq::empty()]
    } else {
        let before = pieces_of(text.drop_last());
        if text.last() == '\n' {
            before.push(Seq::empty())
        } else {
            before.drop_last().push(before.last().push(text.last()))
        }
    }
}

/// The lines of `text`: its pieces between line feeds, without the piece
/// after the last line feed if that piece is empty. The empty text has no
/// line.
pub open spec fn lines_of(text: Seq<char>) -> Seq<Seq<char>> {
    let pieces = pieces_of(text);
    if pieces.last().len() == 0 {
        pieces.drop_last()
    } else {
        pieces
    }
}

/// The words of `line`: its longest runs of characters that are not white
/// space, in order.
pub open spec fn words_of(line: Seq<char>) -> Seq<Seq<char>>
    decreases line.len(),
{
    if line.len() == 0 {
        Seq::empty()
    } else {
        let before = words_of(line.drop_last());
        if is_whitespace(line.last()) {
            before
        } else if line.len() >= 2 && !is_whitespace(line[line.len() - 2]) {
            before.drop_last().push(before.last().push(line.last()))
        } else {
            before.push(seq![line.last()])
        }
    }
}

/// The client that a line of the listing stands for: its second word is the
/// public key and its third the address; the name is empty. A line of fewer
/// than three words stands for none.
pub open spec fn client_of(line: Seq<char>) -> Option<ClientView> {
    let words = words_of(line);
    if words.len() >= 3 {
        Some(ClientView { name: Seq::empty(), address: words[2], public_key: words[1] })
    } else {
        None
    }
}

/// Every line of the listing stands for a client.
pub open spec fn is_listing(text: Seq<char>) -> bool {
    forall|i: int| 0 <= i < lines_of(text).len() ==> client_of(#[trigger] lines_of(text)[i]) is Some
}

/// The clients of a listing, line by line.
pub open spec fn clients_of(text: Seq<char>) -> Seq<ClientView> {
    Seq::new(lines_of(text).len(), |i: int| client_of(lines_of(text)[i])->0)
}

/// Whether `c` separates words.
pub fn whitespace(c: char) -> (white: bool)
    ensures
        white == is_whitespace(c),
{
    let code: u32 = c as u32;
    (0x09 <= code && code <= 0x0D) || code == 0x20 || code == 0x85 || code == 0xA0 || code
        == 0x1680 || (0x2000 <= code && code <= 0x200A) || code == 0x2028 || code == 0x2029
        || code == 0x202F || code == 0x205F || code == 0x3000
}

/// Splits a text into its lines.
pub fn split_lines(text: &str) -> (lines: Vec<String>)
    ensures
        texts(lines@) == lines_of(text@),
{
    let mut done: Vec<String> = Vec::new();
    let mut current = String::new();
    for c in it: text.chars()
        invariant
            it.seq() == text@,
            pieces_of(text@.take(it.index() as int)) == texts(done@).push(current@),
    {
        assert(text@.take(it.index() + 1).drop_last() =~= text@.take(it.index() as int));
        if c == '\n' {
            done.push(current);
            current = String::new();
        } else {
            current.push(c);
        }
    }
    assert(text@.take(text@.len() as int) =~= text@);
    if !current.as_str().is_empty() {
        done.push(current);
    }
    done
}

/// Splits a line into its words.
pub fn split_words(line: &str) -> (words: Vec<String>)
    ensures
        texts(words@) == words_of(line@),
{
    let mut done: Vec<String> = Vec::new();
    let mut current = String::new();
    for c in it: line.chars()
        invariant
            it.seq() == line@,
            current@.len() > 0 <==> it.index() > 0 && !is_whitespace(line@[it.index() - 1]),
            words_of(line@.take(it.index() as int)) == if current@.len() > 0 {
                texts(done@).push(current@)
            } else {
                texts(done@)
            },
    {
        assert(line@.take(it.index() + 1).drop_last() =~= line@.take(it.index() as int));
        if whitespace(c) {
            if !current.as_str().is_empty() {
                done.push(current);
                current = String::new();
            }
        } else {
            let ghost started = current@.len() == 0;
            current.push(c);
            assert(started ==> current@ =~= seq![c]);
        }
    }
    assert(line@.take(line@.len() as int) =~= line@);
    if !current.as_str().is_empty() {
        done.push(current);
    }
    done
}

/// The peer source of the interface.
pub struct Wireguard;

impl Wireguard {
    /// Reads one line of the listing.
    pub fn parse_client(line: &str) -> (client: Option<Client>)
        ensures
            optional_client_view(client) == client_of(line@),
    {
        let words = split_words(line);
        if words.len() >= 3 {
            Some(
                Client {
                    name: String::new(),
                    address: words[2].clone(),
                    public_key: words[1].clone(),
                },
            )
        } else {
            None
        }
    }

    /// Reads the listing of the peers. Every line has to name a peer: if one
    /// does not, the listing as a whole is refused.
    pub fn parse_clients(listing: &str) -> (parsed: Result<Vec<Client>, ProviderError>)
        ensures
            match parsed {
                Ok(clients) => is_listing(listing@) && client_views(clients@) == clients_of(
                    listing@,
                ),
                Err(error) => !is_listing(listing@) && error == ProviderError::Enumeration,
            },
    {
        let lines = split_lines(listing);
        let mut clients: Vec<Client> = Vec::new();
        let mut i: usize = 0;
        while i < lines.len()
            invariant
                i <= lines.len(),
                texts(lines@) == lines_of(listing@),
                clients@.len() == i,
                forall|j: int|
                    0 <= j < i ==> client_of(#[trigger] lines_of(listing@)[j]) == Some(
                        clients@[j]@,
                    ),
            decreases lines.len() - i,
        {
            assert(texts(lines@)[i as int] == lines@[i as int]@);
            match Self::parse_client(lines[i].as_str()) {
                Some(client) => {
                    clients.push(client);
                },
                None => {
                    return Err(ProviderError::Enumeration);
                },
            }
            i += 1;
        }
        Ok(clients)
    }

    /// Hands a client to the peer source, which takes every client.
    pub fn add_client(client: Client) -> (outcome: Result<(), ProviderError>)
        ensures
            outcome is Ok,
    {
        Ok(())
    }

    /// Puts a request of the interface to the peer source. A new client goes
    /// through `add_client`. To exchange or to drop a client asks nothing of
    /// this source, which keeps no list of its own, so that it has done at
    /// once.
    pub fn perform(command: Command) -> (outcome: Result<(), ProviderError>)
        ensures
            outcome is Ok,
    {
        match command {
            Command::Add(client) => Wireguard::add_client(client),
            Command::Update { .. } | Command::Remove { .. } => Ok(()),
        }
    }
}

/// Texts put together with a line feed between each two of them.
pub open spec fn joined(pieces: Seq<Seq<char>>) -> Seq<char>
    decreases pieces.len(),
{
    if pieces.len() == 0 {
        Seq::empty()
    } else if pieces.len() == 1 {
        pieces[0]
    } else {
        joined(pieces.drop_last()) + seq!['\n'] + pieces.last()
    }
}

/// Splitting at the line feeds loses nothing and leaves no line feed behind:
/// no piece holds a line feed, and the pieces joined by line feeds are the
/// text again.
pub proof fn lemma_pieces_split_at_line_feeds(text: Seq<char>)
    ensures
        pieces_of(text).len() >= 1,
        forall|i: int, j: int|
            0 <= i < pieces_of(text).len() && 0 <= j < pieces_of(text)[i].len()
                ==> #[trigger] pieces_of(text)[i][j] != '\n',
        joined(pieces_of(text)) == text,
    decreases text.len(),
{
    if text.len() > 0 {
        let before = pieces_of(text.drop_last());
        lemma_pieces_split_at_line_feeds(text.drop_last());
        if text.last() == '\n' {
            assert(before.push(Seq::empty()).drop_last() == before);
        } else if before.len() > 1 {
            let grown = before.last().push(text.last());
            assert(before.drop_last().push(grown).drop_last() == before.drop_last());
            assert(joined(before.drop_last()) + seq!['\n'] + grown == joined(before).push(
                text.last(),
            ));
        }
    }
}

/// No word is empty, and no word holds white space.
pub proof fn lemma_words_hold_no_whitespace(line: Seq<char>)
    ensures
        forall|i: int| 0 <= i < words_of(line).len() ==> (#[trigger] words_of(line)[i]).len() > 0,
        forall|i: int, j: int|
            0 <= i < words_of(line).len() && 0 <= j < words_of(line)[i].len() ==> !is_whitespace(
                #[trigger] words_of(line)[i][j],
            ),
        line.len() > 0 && !is_whitespace(line.last()) ==> words_of(line).len() > 0,
    decreases line.len(),
{
    if line.len() > 0 {
        let before = words_of(line.drop_last());
        let words = words_of(line);
        lemma_words_hold_no_whitespace(line.drop_last());
        assert forall|i: int| 0 <= i < words.len() implies (#[trigger] words[i]).len() > 0
            && forall|j: int| 0 <= j < words[i].len() ==> !is_whitespace(words[i][j]) by {
            if i < words.len() - 1 || is_whitespace(line.last()) {
                assert(words[i] == before[i]);
            } else {
                assert forall|j: int| 0 <= j < words[i].len() implies !is_whitespace(
                    words[i][j],
                ) by {
                    if j < words[i].len() - 1 {
                        assert(words[i][j] == before.last()[j]);
                    }
                }
            }
        }
    }
}

/// A run of characters without white space is one word.
pub proof fn lemma_run_is_one_word(word: Seq<char>)
    requires
        word.len() > 0,
        forall|j: int| 0 <= j < word.len() ==> !is_whitespace(word[j]),
    ensures
        words_of(word) == seq![word],
    decreases word.len(),
{
    if word.len() == 1 {
        assert(words_of(word.drop_last()) == Seq::<Seq<char>>::empty());
        assert(word == seq![word.last()]);
    } else {
        lemma_run_is_one_word(word.drop_last());
        assert(word.drop_last().push(word.last()) =~= word);
    }
}

/// White space separates words and nothing else does: the words of a text
/// around a white-space character are the words before that character
/// followed by the words after it.
pub proof fn lemma_words_split_at_whitespace(before: Seq<char>, c: char, after: Seq<char>)
    requires
        is_whitespace(c),
    ensures
        words_of(before.push(c) + after) == words_of(before) + words_of(after),
    decreases after.len(),
{
    let line = before.push(c) + after;
    if after.len() == 0 {
        assert(line.drop_last() == before);
    } else {
        lemma_words_split_at_whitespace(before, c, after.drop_last());
        lemma_words_hold_no_whitespace(after.drop_last());
        assert(line.drop_last() == before.push(c) + after.drop_last());
    }
}

} // verus!
