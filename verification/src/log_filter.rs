//! Which log directives the indexer runs with.
//!
//! The directives are chosen here, as texts. Reading the environment,
//! parsing each text and installing the filter are the caller's part.

use vstd::prelude::*;
use vstd::string::*;

verus! {

/// The filter that the indexer always starts from.
pub const BASE_FILTER: &'static str =
    "near_lake_framework=info,indexer_for_explorer=info,stats=info";

/// Raises the indexer's own log level to debug.
pub const INDEXER_DEBUG_DIRECTIVE: &'static str = "indexer_for_explorer=debug";

/// Raises the streaming framework's log level to debug.
pub const LAKE_DEBUG_DIRECTIVE: &'static str = "near_lake_framework=debug";

/// The character between two directives in a list of them.
pub const DIRECTIVE_SEPARATOR: char = ',';

/// The directives to install, in the order in which they are added.
#[derive(Clone, Debug, PartialEq, Eq)]
pub struct LogFilter {
    /// The filter to start from.
    pub base: String,
    /// Directives that the indexer adds itself. Each of them must parse.
    pub debug_directives: Vec<String>,
    /// Directives taken from the environment, added last. One that does not
    /// parse is reported and left out.
    pub env_directives: Vec<String>,
}

/// The pieces of `text` that lie between its separators, in order. A text
/// with `n` separators has `n + 1` pieces, empty ones included.
pub open spec fn split(text: Seq<char>, separator: char) -> Seq<Seq<char>>
    decreases text.len(),
{
    if text.len() == 0 {
        seq![Seq::empty()]
    } else {
        let before = split(text.drop_last(), separator);
        if text.last() == separator {
            before.push(Seq::empty())
        } else {
            before.drop_last().push(before.last().push(text.last()))
        }
    }
}

/// The pieces put together again, with a separator between each two.
pub open spec fn join(pieces: Seq<Seq<char>>, separator: char) -> Seq<char>
    decreases pieces.len(),
{
    if pieces.len() == 0 {
        Seq::empty()
    } else if pieces.len() == 1 {
        pieces[0]
    } else {
        join(pieces.drop_last(), separator).push(separator) + pieces.last()
    }
}

/// The directives that the indexer adds itself: none, or the two that raise
/// the log level to debug.
pub open spec fn debug_directives(debug: bool) -> Seq<Seq<char>> {
    if debug {
        seq![INDEXER_DEBUG_DIRECTIVE@, LAKE_DEBUG_DIRECTIVE@]
    } else {
        Seq::empty()
    }
}

/// The directives that the environment asks for: the pieces of the
/// variable's value, where it is set and not empty.
pub open spec fn env_directives(rust_log: Option<Seq<char>>) -> Seq<Seq<char>> {
    match rust_log {
        Some(text) => if text.len() == 0 {
            Seq::empty()
        } else {
            split(text, DIRECTIVE_SEPARATOR)
        },
        None => Seq::empty(),
    }
}

/// Splitting gives at least one piece, no piece holds a separator, and the
/// pieces joined by separators are the text again.
pub proof fn lemma_split_then_join(text: Seq<char>, separator: char)
    ensures
        split(text, separator).len() >= 1,
        forall|i: int|
            0 <= i < split(text, separator).len() ==> !(#[trigger] split(text, separator)[i])
                .contains(separator),
        join(split(text, separator), separator) == text,
    decreases text.len(),
{
    if text.len() == 0 {
        assert(join(split(text, separator), separator) =~= text);
    } else {
        let shorter = text.drop_last();
        let before = split(shorter, separator);
        let pieces = split(text, separator);
        lemma_split_then_join(shorter, separator);
        if text.last() == separator {
            assert(pieces.drop_last() =~= before);
            assert(join(pieces, separator) =~= join(before, separator).push(separator));
            assert(shorter.push(separator) =~= text);
        } else {
            let piece = before.last().push(text.last());
            assert forall|j: int| 0 <= j < piece.len() implies piece[j] != separator by {
                if j < before.last().len() {
                    assert(before.last().contains(piece[j]));
                }
            }
            if before.len() == 1 {
                assert(join(before, separator) == before[0]);
                assert(join(pieces, separator) == piece);
                assert(shorter.push(text.last()) =~= text);
            } else {
                assert(pieces.drop_last() =~= before.drop_last());
                assert(join(pieces, separator) =~= join(before, separator).push(text.last()));
                assert(shorter.push(text.last()) =~= text);
            }
        }
    }
}

/// Joining pieces that hold no separator and splitting the result gives the
/// pieces again: the split of a text is the only such list of pieces.
pub proof fn lemma_join_then_split(pieces: Seq<Seq<char>>, separator: char)
    requires
        pieces.len() >= 1,
        forall|i: int| 0 <= i < pieces.len() ==> !(#[trigger] pieces[i]).contains(separator),
    ensures
        split(join(pieces, separator), separator) == pieces,
    decreases pieces.len(), pieces.last().len(),
{
    let text = join(pieces, separator);
    let piece = pieces.last();
    if piece.len() == 0 {
        assert(piece =~= Seq::<char>::empty());
        if pieces.len() == 1 {
            assert(pieces =~= seq![Seq::<char>::empty()]);
        } else {
            let shorter = pieces.drop_last();
            lemma_join_then_split(shorter, separator);
            assert(text =~= join(shorter, separator).push(separator));
            assert(text.drop_last() =~= join(shorter, separator));
            assert(shorter.push(Seq::<char>::empty()) =~= pieces);
        }
    } else {
        let trimmed = pieces.drop_last().push(piece.drop_last());
        assert(trimmed.drop_last() =~= pieces.drop_last());
        assert forall|i: int| 0 <= i < trimmed.len() implies !(#[trigger] trimmed[i]).contains(
            separator,
        ) by {
            if i == trimmed.len() - 1 {
                assert forall|j: int| 0 <= j < trimmed[i].len() implies trimmed[i][j]
                    != separator by {
                    assert(piece.contains(piece[j]));
                }
            } else {
                assert(trimmed[i] == pieces[i]);
            }
        }
        lemma_join_then_split(trimmed, separator);
        assert(piece.contains(piece.last()));
        assert(text.last() == piece.last());
        assert(text.drop_last() =~= join(trimmed, separator));
        assert(piece.drop_last().push(piece.last()) =~= piece);
        assert(trimmed.drop_last().push(piece) =~= pieces);
    }
}

/// Splits `text` at each `separator`.
pub fn split_text(text: &str, separator: char) -> (pieces: Vec<String>)
    ensures
        pieces.deep_view() == split(text@, separator),
{
    let length: usize = text.unicode_len();
    let mut pieces: Vec<String> = Vec::new();
    let mut start: usize = 0;
    let mut at: usize = 0;
    assert(pieces.deep_view() =~= split(text@.take(0), separator).drop_last());
    assert(text@.subrange(0, 0) =~= split(text@.take(0), separator).last());
    while at < length
        invariant
            length == text@.len(),
            start <= at <= length,
            pieces.deep_view() == split(text@.take(at as int), separator).drop_last(),
            text@.subrange(start as int, at as int) == split(
                text@.take(at as int),
                separator,
            ).last(),
        decreases length - at,
    {
        let c = text.get_char(at);
        let ghost seen = text@.take(at as int);
        let ghost before = split(seen, separator);
        assert(text@.take(at + 1).drop_last() =~= seen);
        if c == separator {
            let piece = text.substring_char(start, at).to_owned();
            let ghost earlier = pieces.deep_view();
            pieces.push(piece);
            assert(pieces.deep_view() =~= earlier.push(piece@));
            assert(earlier.push(piece@) =~= before);
            start = at + 1;
            assert(text@.subrange(start as int, at + 1) =~= Seq::<char>::empty());
        } else {
            assert(text@.subrange(start as int, at + 1) =~= before.last().push(c));
            assert(split(text@.take(at + 1), separator).drop_last() =~= before.drop_last());
        }
        at = at + 1;
    }
    let piece = text.substring_char(start, length).to_owned();
    let ghost earlier = pieces.deep_view();
    pieces.push(piece);
    proof {
        let all = split(text@, separator);
        assert(text@.take(length as int) =~= text@);
        assert(pieces.deep_view() =~= earlier.push(piece@));
        assert(earlier.push(piece@) =~= all);
    }
    pieces
}

/// Chooses the log directives for a run.
///
/// The filter starts from `BASE_FILTER`. With `debug` set the two debug
/// directives follow. The directives of `rust_log`, the value of the
/// environment's log variable where it is set, come last: the pieces
/// between its commas, unless the value is empty.
pub fn log_filter(debug: bool, rust_log: Option<&str>) -> (filter: LogFilter)
    ensures
        filter.base@ == BASE_FILTER@,
        filter.debug_directives.deep_view() == debug_directives(debug),
        filter.env_directives.deep_view() == env_directives(rust_log.deep_view()),
{
    let mut for_debug: Vec<String> = Vec::new();
    if debug {
        for_debug.push(INDEXER_DEBUG_DIRECTIVE.to_owned());
        for_debug.push(LAKE_DEBUG_DIRECTIVE.to_owned());
    }
    assert(for_debug.deep_view() =~= debug_directives(debug));
    let from_env = match rust_log {
        Some(text) => if text.unicode_len() == 0 {
            Vec::new()
        } else {
            split_text(text, DIRECTIVE_SEPARATOR)
        },
        None => Vec::new(),
    };
    assert(from_env.deep_view() =~= env_directives(rust_log.deep_view()));
    LogFilter { base: BASE_FILTER.to_owned(), debug_directives: for_debug, env_directives: from_env }
}

} // verus!
