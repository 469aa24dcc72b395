//! The average command: it looks an item up by an approximate name and
//! replies with the latest prices and the number of sales.

use vstd::prelude::*;
use crate::commands::placeholders::{
    AmountSold, Average as AveragePrice, CommandPlaceholder, ItemName, MovingAverage,
};
use crate::commands::{ArgumentLength, Command, CommandError};
use crate::placeholder::rendered;
use crate::state::command_response;
use crate::text::{
    append_chars, append_str, chars_of, decimal, find, first_occurrence, join, joined,
    lemma_words_nonempty, occurs_in, parse_u8, parsed_u8, push_decimal, split_whitespace, str_views,
    string_of, trim, trimmed, words,
};

verus! {

/// An item of the market: the slug that its data is fetched by and the name
/// that it is shown under.
#[derive(Debug, Clone, PartialEq, Eq)]
pub struct Item {
    pub slug: String,
    pub name: String,
}

/// The bits of the Jaro-Winkler similarity of two sequences of characters.
pub uninterp spec fn jaro_winkler_bits(query: Seq<char>, name: Seq<char>) -> u64;

/// How similar `name` is to `query`.
///
/// Trusted: calls `textdistance::nstr::jaro_winkler`, which computes the
/// normalised Jaro-Winkler similarity from the characters of its two
/// arguments alone, and hands on the bit pattern of the number it returns.
/// The similarity is a number from 0 to 1, and such numbers are ordered as
/// their bit patterns are.
#[verifier::external_body]
fn similarity(query: &str, name: &str) -> (bits: u64)
    ensures
        bits == jaro_winkler_bits(query@, name@),
{
    textdistance::nstr::jaro_winkler(query, name).to_bits()
}

/// Whether `i` is the first position of `scores` that holds their maximum.
pub open spec fn first_maximum(scores: Seq<u64>, i: int) -> bool {
    &&& 0 <= i < scores.len()
    &&& forall|j: int| 0 <= j < scores.len() ==> scores[j] <= scores[i]
    &&& forall|j: int| 0 <= j < i ==> scores[j] < scores[i]
}

/// The first position that holds the highest score, if there is any score.
pub fn best_index(scores: &[u64]) -> (best: Option<usize>)
    ensures
        match best {
            None => scores@.len() == 0,
            Some(i) => first_maximum(scores@, i as int),
        },
{
    if scores.len() == 0 {
        return None;
    }
    let mut best: usize = 0;
    let mut i: usize = 1;
    while i < scores.len()
        invariant
            1 <= i <= scores.len(),
            first_maximum(scores@.take(i as int), best as int),
        decreases scores.len() - i,
    {
        if scores[i] > scores[best] {
            best = i;
        }
        i += 1;
    }
    assert(scores@.take(scores.len() as int) =~= scores@);
    Some(best)
}

/// The score of each candidate's name against the query.
pub open spec fn scores_of(query: Seq<char>, candidates: Seq<Item>) -> Seq<u64> {
    Seq::new(candidates.len(), |i: int| jaro_winkler_bits(query, candidates[i].name@))
}

/// The candidate whose name is most similar to the query, as its slug and
/// its name. Of several that are equally similar the first one is taken.
/// However poor the best match is, it is returned: there is none only
/// where there is no candidate.
pub fn find_best_match(query: &str, candidates: &[Item]) -> (found: Option<(String, String)>)
    ensures
        match found {
            None => candidates@.len() == 0,
            Some((slug, name)) => exists|i: int|
                first_maximum(scores_of(query@, candidates@), i) && slug@ == candidates@[i].slug@
                    && name@ == candidates@[i].name@,
        },
{
    let mut scores: Vec<u64> = Vec::new();
    let mut i: usize = 0;
    while i < candidates.len()
        invariant
            i <= candidates.len(),
            scores@ == scores_of(query@, candidates@).take(i as int),
        decreases candidates.len() - i,
    {
        let score = similarity(query, candidates[i].name.as_str());
        scores.push(score);
        assert(scores@ =~= scores_of(query@, candidates@).take(i + 1));
        i += 1;
    }
    assert(scores@ =~= scores_of(query@, candidates@));
    match best_index(scores.as_slice()) {
        None => None,
        Some(best) => Some((candidates[best].slug.clone(), candidates[best].name.clone())),
    }
}

/// Finds the item that the user most likely meant.
pub fn resolve(query: &str, candidates: &[Item]) -> (found: Result<(String, String), CommandError>)
    ensures
        match found {
            Ok((slug, name)) => exists|i: int|
                first_maximum(scores_of(query@, candidates@), i) && slug@ == candidates@[i].slug@
                    && name@ == candidates@[i].name@,
            Err(error) => candidates@.len() == 0 && error.tells_client(
                "Couldn't find the item you're looking for!"@,
            ),
        },
{
    match find_best_match(query, candidates) {
        Some(found) => Ok(found),
        None => Err(CommandError::Client("Couldn't find the item you're looking for!".to_owned())),
    }
}

/// What the statistics of an item are narrowed down by.
#[derive(Clone, Copy, Debug, Default, PartialEq, Eq)]
pub struct Filters {
    pub mod_rank: Option<u8>,
}

/// The filters after one more word of the filter text has been read, or
/// the message that says what is wrong with the word.
///
/// A word is a letter that names the kind of filter and, directly behind
/// it, the value. `r` is the rank of a mod.
pub open spec fn with_word(filters: Filters, word: Seq<char>) -> Result<Filters, Seq<char>> {
    if word.len() > 0 && word[0] == 'r' {
        let rank = word.drop_first();
        if rank.len() == 0 {
            Err("Expected numbers after the `r`"@)
        } else {
            match parsed_u8(rank) {
                Some(value) => Ok(Filters { mod_rank: Some(value) }),
                None => Err(rank + " is not a number!"@),
            }
        }
    } else {
        Err("Invalid filter: "@ + word)
    }
}

/// The filters that a sequence of words gives, read from left to right:
/// the first word that is wrong decides the message, and of two values for
/// one kind of filter the later one stays.
pub open spec fn with_words(words: Seq<Seq<char>>) -> Result<Filters, Seq<char>>
    decreases words.len(),
{
    if words.len() == 0 {
        Ok(Filters { mod_rank: None })
    } else {
        match with_words(words.drop_last()) {
            Ok(filters) => with_word(filters, words.last()),
            Err(message) => Err(message),
        }
    }
}

/// The filters that a filter text stands for, or the message for the user.
/// An empty text is an error; a text of white space alone gives no filter.
pub open spec fn parsed_filters(input: Seq<char>) -> Result<Filters, Seq<char>> {
    if input.len() == 0 {
        Err("Signalled filter, but filters are empty"@)
    } else {
        with_words(words(input))
    }
}

/// Reads one word of a filter text.
fn read_word(filters: Filters, word: &Vec<char>) -> (r: Result<Filters, String>)
    requires
        word@.len() > 0,
    ensures
        match r {
            Ok(next) => with_word(filters, word@) == Ok::<Filters, Seq<char>>(next),
            Err(message) => with_word(filters, word@) == Err::<Filters, Seq<char>>(message@),
        },
{
    if word[0] == 'r' {
        let mut rank: Vec<char> = Vec::new();
        let mut i: usize = 1;
        while i < word.len()
            invariant
                1 <= i <= word.len(),
                rank@ == word@.subrange(1, i as int),
            decreases word.len() - i,
        {
            rank.push(word[i]);
            i += 1;
        }
        assert(rank@ =~= word@.drop_first());
        if rank.len() == 0 {
            return Err("Expected numbers after the `r`".to_owned());
        }
        match parse_u8(rank.as_slice()) {
            Some(value) => Ok(Filters { mod_rank: Some(value) }),
            None => {
                let mut message = rank;
                append_str(&mut message, " is not a number!");
                Err(string_of(&message))
            },
        }
    } else {
        let mut message: Vec<char> = chars_of("Invalid filter: ");
        append_chars(&mut message, word.as_slice());
        Err(string_of(&message))
    }
}

/// Reads the filters that the user wrote behind the item's name.
///
/// The text is split at white space into words, and each word is one
/// filter. The caller hands over the text only where the user has marked
/// the start of the filters, so an empty text is an error.
pub fn extract_filters(input: String) -> (r: Result<Filters, CommandError>)
    ensures
        match r {
            Ok(filters) => parsed_filters(input@) == Ok::<Filters, Seq<char>>(filters),
            Err(error) => error is Client && parsed_filters(input@) == Err::<Filters, Seq<char>>(
                error.message_view(),
            ),
        },
{
    if input.as_str().is_empty() {
        return Err(CommandError::Client("Signalled filter, but filters are empty".to_owned()));
    }
    let tokens = split_whitespace(input.as_str());
    let mut filters = Filters { mod_rank: None };
    let mut i: usize = 0;
    assert(str_views(tokens@).take(0) =~= Seq::<Seq<char>>::empty());
    while i < tokens.len()
        invariant
            i <= tokens.len(),
            input@.len() > 0,
            str_views(tokens@) == words(input@),
            with_words(str_views(tokens@).take(i as int)) == Ok::<Filters, Seq<char>>(filters),
        decreases tokens.len() - i,
    {
        let ghost read = str_views(tokens@).take(i + 1);
        assert(read.drop_last() =~= str_views(tokens@).take(i as int));
        assert(read.last() == tokens@[i as int]@);
        proof {
            lemma_words_nonempty(input@, i as int);
        }
        let word = chars_of(tokens[i]);
        match read_word(filters, &word) {
            Ok(next) => {
                filters = next;
            },
            Err(message) => {
                proof {
                    lemma_with_words_fails(str_views(tokens@), i + 1, message@);
                }
                return Err(CommandError::Client(message));
            },
        }
        i += 1;
    }
    assert(str_views(tokens@).take(tokens.len() as int) =~= str_views(tokens@));
    Ok(filters)
}

/// Once the words read so far are wrong, the words behind them change
/// nothing.
pub proof fn lemma_with_words_fails(words: Seq<Seq<char>>, k: int, message: Seq<char>)
    requires
        0 <= k <= words.len(),
        with_words(words.take(k)) == Err::<Filters, Seq<char>>(message),
    ensures
        with_words(words) == Err::<Filters, Seq<char>>(message),
    decreases words.len(),
{
    if k == words.len() {
        assert(words.take(k) =~= words);
    } else {
        assert(words.drop_last().take(k) =~= words.take(k));
        lemma_with_words_fails(words.drop_last(), k, message);
    }
}

/// The two characters that stand between the item's name and the filters.
pub open spec fn filter_mark() -> Seq<char> {
    seq!['|', '|']
}

/// What the user asks the average command for.
#[derive(Debug, Clone, PartialEq, Eq)]
pub struct Query {
    /// The name of the item, as the user wrote it.
    pub item: String,
    /// The filters, where the user has marked the start of any.
    pub filters: Option<Filters>,
}

/// A pattern has one leftmost position at most.
pub proof fn lemma_first_occurrence_unique(s: Seq<char>, pat: Seq<char>, i: int, j: int)
    requires
        first_occurrence(s, pat, i),
        first_occurrence(s, pat, j),
    ensures
        i == j,
{
}

/// The position of the first filter mark in `input`, where there is one.
pub open spec fn mark_position(input: Seq<char>) -> int {
    choose|i: int| first_occurrence(input, filter_mark(), i)
}

/// Reads the arguments of the average command.
///
/// The arguments are put together again with one space between each two.
/// What stands before the first `||` is the item's name; what stands
/// behind it are the filters. Both are trimmed. Without a `||` there are no
/// filters and the whole text is the name.
pub fn parse_query(args: &[&str]) -> (r: Result<Query, CommandError>)
    ensures
        ({
            let input = joined(str_views(args@), seq![' ']);
            let at = mark_position(input);
            let filter_text = trimmed(input.skip(at + 2));
            if !occurs_in(input, filter_mark()) {
                &&& r matches Ok(query)
                &&& query.item@ == trimmed(input)
                &&& query.filters is None
            } else {
                match r {
                    Ok(query) => {
                        &&& query.item@ == trimmed(input.take(at))
                        &&& query.filters matches Some(filters)
                        &&& parsed_filters(filter_text) == Ok::<Filters, Seq<char>>(filters)
                    },
                    Err(error) => {
                        &&& error is Client
                        &&& parsed_filters(filter_text) == Err::<Filters, Seq<char>>(
                            error.message_view(),
                        )
                    },
                }
            }
        }),
{
    let mut space: Vec<char> = Vec::new();
    space.push(' ');
    assert(space@ =~= seq![' ']);
    let mut mark: Vec<char> = Vec::new();
    mark.push('|');
    mark.push('|');
    assert(mark@ =~= filter_mark());
    let input = join(args, space.as_slice());
    match find(input.as_slice(), mark.as_slice()) {
        None => {
            let item = trim(input.as_slice());
            Ok(Query { item: string_of(&item), filters: None })
        },
        Some(at) => {
            proof {
                lemma_first_occurrence_unique(
                    input@,
                    filter_mark(),
                    at as int,
                    mark_position(input@),
                );
            }
            let mut before: Vec<char> = Vec::new();
            let mut i: usize = 0;
            while i < at
                invariant
                    i <= at <= input.len(),
                    before@ == input@.take(i as int),
                decreases at - i,
            {
                before.push(input[i]);
                i += 1;
            }
            let mut after: Vec<char> = Vec::new();
            let mut j: usize = at + 2;
            while j < input.len()
                invariant
                    at + 2 <= j <= input.len(),
                    after@ == input@.subrange(at + 2, j as int),
                decreases input.len() - j,
            {
                after.push(input[j]);
                j += 1;
            }
            assert(after@ =~= input@.skip(at + 2));
            let item = trim(before.as_slice());
            let filter_text = trim(after.as_slice());
            match extract_filters(string_of(&filter_text)) {
                Ok(filters) => Ok(Query { item: string_of(&item), filters: Some(filters) }),
                Err(error) => Err(error),
            }
        },
    }
}

/// Where the statistics of an item are fetched from.
pub open spec fn statistics_address(slug: Seq<char>) -> Seq<char> {
    "https://api.warframe.market/v1/items/"@ + slug + "/statistics"@
}

/// The address that the statistics of the item with this slug are fetched
/// from.
pub fn statistics_url(slug: &str) -> (url: String)
    ensures
        url@ == statistics_address(slug@),
{
    let mut out: Vec<char> = chars_of("https://api.warframe.market/v1/items/");
    append_str(&mut out, slug);
    append_str(&mut out, "/statistics");
    string_of(&out)
}

/// The sales of an item over one span of time.
///
/// The prices are kept as the text that is shown to the user.
#[derive(Debug, Clone, PartialEq, Eq)]
pub struct Statistic {
    pub datetime: String,
    pub volume: u32,
    pub closed_price: i64,
    pub avg_price: String,
    pub moving_avg: Option<String>,
    pub mod_rank: Option<u8>,
}

/// What the average command reports of an item.
#[derive(Debug, Clone, PartialEq, Eq)]
pub struct Summary {
    /// The average price of the most recent record.
    pub average: String,
    /// The moving average of the most recent record, where it has one.
    pub moving_average: Option<String>,
    /// The number of items sold over all records that count.
    pub amount_sold: u128,
}

/// The rank that the records are narrowed down to, where they carry ranks
/// at all: the rank that the user asked for, and rank 0 where the user
/// asked for none. Whether they carry ranks is read off the first record.
pub open spec fn wanted_rank(statistics: Seq<Statistic>, filters: Option<Filters>) -> Option<u8> {
    if statistics.len() > 0 && statistics[0].mod_rank is Some {
        match filters {
            Some(Filters { mod_rank: Some(rank) }) => Some(rank),
            _ => Some(0u8),
        }
    } else {
        None
    }
}

/// Whether a record counts: every record where no rank is asked for, else
/// the records of that rank. A record without a rank is of no rank.
pub open spec fn counts(statistic: Statistic, rank: Option<u8>) -> bool {
    rank is Some ==> statistic.mod_rank == rank
}

/// The number of items sold over all records that count.
pub open spec fn sold(statistics: Seq<Statistic>, rank: Option<u8>) -> nat
    decreases statistics.len(),
{
    if statistics.len() == 0 {
        0
    } else {
        sold(statistics.drop_last(), rank) + if counts(statistics.last(), rank) {
            statistics.last().volume as nat
        } else {
            0
        }
    }
}

/// Whether `i` is the position of the most recent record that counts. The
/// records stand from the oldest to the most recent.
pub open spec fn latest_counting(statistics: Seq<Statistic>, rank: Option<u8>, i: int) -> bool {
    &&& 0 <= i < statistics.len()
    &&& counts(statistics[i], rank)
    &&& forall|j: int| i < j < statistics.len() ==> !counts(#[trigger] statistics[j], rank)
}

/// Whether two optional texts are both absent or hold the same characters.
pub open spec fn same_text_option(left: Option<String>, right: Option<String>) -> bool {
    match (left, right) {
        (Some(a), Some(b)) => a@ == b@,
        (None, None) => true,
        _ => false,
    }
}

/// What the user is told where an item has no sales to report.
pub open spec fn no_sales(name: Seq<char>, filtered: bool) -> Seq<char> {
    if filtered {
        name + " hasn't had any sales in the last 48 hours! (filters applied)"@
    } else {
        name + " hasn't had any sales in the last 48 hours!"@
    }
}

/// Tests whether a record counts.
fn record_counts(statistic: &Statistic, rank: Option<u8>) -> (b: bool)
    ensures
        b == counts(*statistic, rank),
{
    match rank {
        None => true,
        Some(wanted) => match statistic.mod_rank {
            Some(found) => found == wanted,
            None => false,
        },
    }
}

/// Sums up the sales of an item over the last 48 hours.
///
/// `statistics` holds the records from the oldest to the most recent.
/// Where the records carry the rank of a mod, only those of one rank count.
/// The prices are those of the most recent record that counts; the number
/// sold is the sum over all that count. Without any record, and without
/// any that counts, the user is told so.
pub fn summarize(name: &str, statistics: &[Statistic], filters: Option<Filters>) -> (r: Result<
    Summary,
    CommandError,
>)
    ensures
        ({
            let rank = wanted_rank(statistics@, filters);
            match r {
                Ok(summary) => exists|i: int|
                    {
                        &&& latest_counting(statistics@, rank, i)
                        &&& summary.average@ == statistics@[i].avg_price@
                        &&& same_text_option(summary.moving_average, statistics@[i].moving_avg)
                        &&& summary.amount_sold == sold(statistics@, rank)
                    },
                Err(error) => {
                    &&& forall|i: int|
                        0 <= i < statistics@.len() ==> !counts(#[trigger] statistics@[i], rank)
                    &&& error.tells_client(no_sales(name@, statistics@.len() > 0))
                },
            }
        }),
{
    if statistics.len() == 0 {
        let mut message = chars_of(name);
        append_str(&mut message, " hasn't had any sales in the last 48 hours!");
        return Err(CommandError::Client(string_of(&message)));
    }
    let rank: Option<u8> = match statistics[0].mod_rank {
        Some(_) => match filters {
            Some(Filters { mod_rank: Some(wanted) }) => Some(wanted),
            _ => Some(0),
        },
        None => None,
    };
    let mut latest: usize = statistics.len();
    while latest > 0 && !record_counts(&statistics[latest - 1], rank)
        invariant
            latest <= statistics.len(),
            forall|j: int| latest <= j < statistics.len() ==> !counts(#[trigger] statistics@[j], rank),
        decreases latest,
    {
        latest -= 1;
    }
    if latest == 0 {
        let mut message = chars_of(name);
        append_str(&mut message, " hasn't had any sales in the last 48 hours! (filters applied)");
        return Err(CommandError::Client(string_of(&message)));
    }
    let mut amount_sold: u128 = 0;
    let mut k: usize = 0;
    assert(statistics@.take(0) =~= Seq::<Statistic>::empty());
    while k < statistics.len()
        invariant
            k <= statistics.len(),
            amount_sold == sold(statistics@.take(k as int), rank),
            amount_sold <= k * 0xFFFF_FFFF,
        decreases statistics.len() - k,
    {
        assert(statistics@.take(k + 1).drop_last() =~= statistics@.take(k as int));
        assert(statistics@.take(k + 1).last() == statistics@[k as int]);
        if record_counts(&statistics[k], rank) {
            amount_sold += statistics[k].volume as u128;
        }
        k += 1;
    }
    assert(statistics@.take(statistics.len() as int) =~= statistics@);
    let recent = &statistics[latest - 1];
    let moving_average = match &recent.moving_avg {
        Some(given) => Some(given.clone()),
        None => None,
    };
    assert(latest_counting(statistics@, rank, latest - 1));
    Ok(Summary { average: recent.avg_price.clone(), moving_average, amount_sold })
}

/// The text that is shown for the moving average.
pub open spec fn moving_average_text(summary: Summary) -> Seq<char> {
    match summary.moving_average {
        Some(shown) => shown@,
        None => "unknown"@,
    }
}

/// The reply of the average command: the format with the average, the
/// moving average (or `unknown`), the item's name and the number sold in
/// place of their tokens, and then the author's name.
pub fn reply(format: &str, author: &str, name: &str, summary: &Summary) -> (message: String)
    ensures
        message@ == rendered(
            rendered(
                format@,
                seq![
                    ("{average}"@, summary.average@),
                    ("{moving_average}"@, moving_average_text(*summary)),
                    ("{item_name}"@, name@),
                    ("{amount_sold}"@, decimal(summary.amount_sold as nat)),
                ],
            ),
            seq![("{author}"@, author@)],
        ),
{
    let moving = match &summary.moving_average {
        Some(shown) => shown.clone(),
        None => "unknown".to_owned(),
    };
    let mut amount: Vec<char> = Vec::new();
    push_decimal(&mut amount, summary.amount_sold);
    assert(amount@ =~= decimal(summary.amount_sold as nat));
    let mut placeholders: Vec<CommandPlaceholder> = Vec::new();
    placeholders.push(CommandPlaceholder::Average(AveragePrice(summary.average.clone())));
    placeholders.push(CommandPlaceholder::MovingAverage(MovingAverage(moving)));
    placeholders.push(CommandPlaceholder::ItemName(ItemName(name)));
    placeholders.push(CommandPlaceholder::AmountSold(AmountSold(string_of(&amount))));
    assert(crate::placeholder::pairs_of(placeholders@) =~= seq![
        ("{average}"@, summary.average@),
        ("{moving_average}"@, moving_average_text(*summary)),
        ("{item_name}"@, name@),
        ("{amount_sold}"@, decimal(summary.amount_sold as nat)),
    ]);
    command_response(format, author, placeholders.as_slice())
}

/// The average command.
pub struct Average;

impl Command for Average {
    open spec fn prefix_view(&self) -> Seq<char> {
        "!avg"@
    }

    open spec fn arity(&self) -> ArgumentLength {
        ArgumentLength::Variadic
    }

    fn command_prefix(&self) -> (prefix: &'static str) {
        "!avg"
    }

    fn length(&self) -> (length: ArgumentLength) {
        ArgumentLength::Variadic
    }
}

} // verus!
