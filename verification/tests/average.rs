use wf_twitch_notifier::commands::average::{
    best_index, extract_filters, find_best_match, parse_query, reply, resolve, statistics_url,
    summarize, Filters, Item, Query, Statistic, Summary,
};
use wf_twitch_notifier::commands::CommandError;

fn item(slug: &str, name: &str) -> Item {
    Item { slug: slug.to_owned(), name: name.to_owned() }
}

fn record(volume: u32, avg: &str, moving: Option<&str>, rank: Option<u8>) -> Statistic {
    Statistic {
        datetime: "2024-01-01T00:00:00.000+00:00".to_owned(),
        volume,
        closed_price: 10,
        avg_price: avg.to_owned(),
        moving_avg: moving.map(|m| m.to_owned()),
        mod_rank: rank,
    }
}

fn client(message: &str) -> CommandError {
    CommandError::Client(message.to_owned())
}

#[test]
fn filters_rank_three() {
    assert_eq!(extract_filters("r3".to_owned()), Ok(Filters { mod_rank: Some(3) }));
}

#[test]
fn filters_empty_text_is_an_error() {
    assert_eq!(
        extract_filters("".to_owned()),
        Err(client("Signalled filter, but filters are empty"))
    );
}

#[test]
fn filters_unknown_kind_is_named() {
    assert_eq!(extract_filters("x9".to_owned()), Err(client("Invalid filter: x9")));
}

#[test]
fn filters_bad_rank_is_named() {
    assert_eq!(extract_filters("rabc".to_owned()), Err(client("abc is not a number!")));
    assert_eq!(extract_filters("r256".to_owned()), Err(client("256 is not a number!")));
    assert_eq!(extract_filters("r-1".to_owned()), Err(client("-1 is not a number!")));
}

#[test]
fn filters_rank_without_number() {
    assert_eq!(extract_filters("r".to_owned()), Err(client("Expected numbers after the `r`")));
}

#[test]
fn filters_last_value_wins() {
    assert_eq!(extract_filters("r3 r5".to_owned()), Ok(Filters { mod_rank: Some(5) }));
    assert_eq!(extract_filters("  r3\tr5  r0 ".to_owned()), Ok(Filters { mod_rank: Some(0) }));
}

#[test]
fn filters_first_wrong_word_decides() {
    assert_eq!(extract_filters("r3 x9 rabc".to_owned()), Err(client("Invalid filter: x9")));
    assert_eq!(extract_filters("rabc x9".to_owned()), Err(client("abc is not a number!")));
}

#[test]
fn filters_white_space_alone_gives_no_filter() {
    assert_eq!(extract_filters("   ".to_owned()), Ok(Filters { mod_rank: None }));
}

#[test]
fn filters_rank_with_a_plus_sign() {
    assert_eq!(extract_filters("r+3".to_owned()), Ok(Filters { mod_rank: Some(3) }));
}

#[test]
fn filters_kind_is_case_sensitive() {
    assert_eq!(extract_filters("R3".to_owned()), Err(client("Invalid filter: R3")));
}

#[test]
fn best_index_takes_the_first_maximum() {
    assert_eq!(best_index(&[]), None);
    assert_eq!(best_index(&[7]), Some(0));
    assert_eq!(best_index(&[1, 9, 3, 9]), Some(1));
    assert_eq!(best_index(&[5, 5, 5]), Some(0));
    assert_eq!(best_index(&[0, 1, 2]), Some(2));
}

#[test]
fn best_match_of_no_candidate_is_none() {
    assert_eq!(find_best_match("serration", &[]), None);
}

#[test]
fn best_match_of_any_candidates_is_some() {
    let candidates = [item("a", "Vitality"), item("b", "Redirection")];
    assert!(find_best_match("zzzzzz", &candidates).is_some());
    assert!(find_best_match("", &candidates).is_some());
}

#[test]
fn best_match_is_the_most_similar_name() {
    let candidates = [
        item("vitality", "Vitality"),
        item("serration", "Serration"),
        item("primed_flow", "Primed Flow"),
    ];
    assert_eq!(
        find_best_match("Seration", &candidates),
        Some(("serration".to_owned(), "Serration".to_owned()))
    );
    assert_eq!(
        find_best_match("Primed Flow", &candidates),
        Some(("primed_flow".to_owned(), "Primed Flow".to_owned()))
    );
    assert_eq!(
        find_best_match("vitalty", &candidates),
        Some(("vitality".to_owned(), "Vitality".to_owned()))
    );
}

#[test]
fn best_match_goes_by_the_name_not_the_query_alone() {
    // The same query picks another candidate once the names change places.
    let one = [item("first", "Serration"), item("second", "Vitality")];
    let two = [item("first", "Vitality"), item("second", "Serration")];
    assert_eq!(find_best_match("Serration", &one).unwrap().0, "first");
    assert_eq!(find_best_match("Serration", &two).unwrap().0, "second");
}

#[test]
fn best_match_of_equal_names_is_the_first() {
    let candidates = [item("first", "Flow"), item("second", "Flow"), item("third", "Flow")];
    assert_eq!(
        find_best_match("Flow", &candidates),
        Some(("first".to_owned(), "Flow".to_owned()))
    );
}

#[test]
fn resolve_says_when_nothing_is_found() {
    assert_eq!(
        resolve("serration", &[]),
        Err(client("Couldn't find the item you're looking for!"))
    );
    assert_eq!(
        resolve("serration", &[item("serration", "Serration")]),
        Ok(("serration".to_owned(), "Serration".to_owned()))
    );
}

#[test]
fn query_without_filters() {
    assert_eq!(
        parse_query(&["primed", "flow"]),
        Ok(Query { item: "primed flow".to_owned(), filters: None })
    );
    assert_eq!(parse_query(&[]), Ok(Query { item: "".to_owned(), filters: None }));
    assert_eq!(
        parse_query(&["", "primed", "", "flow", ""]),
        Ok(Query { item: "primed  flow".to_owned(), filters: None })
    );
}

#[test]
fn query_with_filters() {
    assert_eq!(
        parse_query(&["primed", "flow", "||", "r3"]),
        Ok(Query { item: "primed flow".to_owned(), filters: Some(Filters { mod_rank: Some(3) }) })
    );
    assert_eq!(
        parse_query(&["primed", "flow||r3", "r10"]),
        Ok(Query { item: "primed flow".to_owned(), filters: Some(Filters { mod_rank: Some(10) }) })
    );
}

#[test]
fn query_with_an_empty_filter_part_is_an_error() {
    assert_eq!(
        parse_query(&["primed", "flow", "||"]),
        Err(client("Signalled filter, but filters are empty"))
    );
    assert_eq!(
        parse_query(&["flow", "||", "", ""]),
        Err(client("Signalled filter, but filters are empty"))
    );
}

#[test]
fn query_splits_at_the_first_mark_only() {
    assert_eq!(parse_query(&["flow", "||", "r3", "||", "r4"]), Err(client("Invalid filter: ||")));
    assert_eq!(parse_query(&["flow", "|||", "r3"]), Err(client("Invalid filter: |")));
}

#[test]
fn statistics_url_holds_the_slug() {
    assert_eq!(
        statistics_url("primed_flow"),
        "https://api.warframe.market/v1/items/primed_flow/statistics"
    );
}

#[test]
fn summary_of_no_record_is_the_no_sales_error() {
    assert_eq!(
        summarize("Primed Flow", &[], None),
        Err(client("Primed Flow hasn't had any sales in the last 48 hours!"))
    );
    assert_eq!(
        summarize("Primed Flow", &[], Some(Filters { mod_rank: Some(3) })),
        Err(client("Primed Flow hasn't had any sales in the last 48 hours!"))
    );
}

#[test]
fn summary_without_ranks_counts_every_record() {
    let records = [
        record(2, "10", Some("9.5"), None),
        record(3, "11", None, None),
        record(4, "12.5", Some("11.2"), None),
    ];
    let expected = Summary {
        average: "12.5".to_owned(),
        moving_average: Some("11.2".to_owned()),
        amount_sold: 9,
    };
    assert_eq!(summarize("Forma", &records, None), Ok(expected.clone()));
    assert_eq!(summarize("Forma", &records, Some(Filters { mod_rank: Some(3) })), Ok(expected));
}

#[test]
fn summary_defaults_to_rank_zero() {
    let records = [
        record(2, "10", Some("9.5"), Some(0)),
        record(3, "50", Some("49"), Some(10)),
        record(4, "12", None, Some(0)),
        record(5, "55", Some("51"), Some(10)),
    ];
    assert_eq!(
        summarize("Primed Flow", &records, None),
        Ok(Summary { average: "12".to_owned(), moving_average: None, amount_sold: 6 })
    );
    assert_eq!(
        summarize("Primed Flow", &records, Some(Filters { mod_rank: None })),
        Ok(Summary { average: "12".to_owned(), moving_average: None, amount_sold: 6 })
    );
}

#[test]
fn summary_of_the_rank_asked_for() {
    let records = [
        record(2, "10", Some("9.5"), Some(0)),
        record(3, "50", Some("49"), Some(10)),
        record(4, "12", None, Some(0)),
        record(5, "55", Some("51"), Some(10)),
        record(1, "13", None, Some(0)),
    ];
    assert_eq!(
        summarize("Primed Flow", &records, Some(Filters { mod_rank: Some(10) })),
        Ok(Summary {
            average: "55".to_owned(),
            moving_average: Some("51".to_owned()),
            amount_sold: 8
        })
    );
}

#[test]
fn summary_of_a_rank_without_sales_is_the_filtered_error() {
    let records = [record(2, "10", None, Some(0)), record(3, "50", None, Some(10))];
    assert_eq!(
        summarize("Primed Flow", &records, Some(Filters { mod_rank: Some(5) })),
        Err(client("Primed Flow hasn't had any sales in the last 48 hours! (filters applied)"))
    );
    let ranked = [record(2, "10", None, Some(3))];
    assert_eq!(
        summarize("Primed Flow", &ranked, None),
        Err(client("Primed Flow hasn't had any sales in the last 48 hours! (filters applied)"))
    );
}

#[test]
fn summary_skips_records_without_a_rank_among_ranked_ones() {
    let records = [record(2, "10", None, Some(0)), record(3, "50", None, None)];
    assert_eq!(
        summarize("Primed Flow", &records, None),
        Ok(Summary { average: "10".to_owned(), moving_average: None, amount_sold: 2 })
    );
}

#[test]
fn summary_adds_up_beyond_thirty_two_bits() {
    let records =
        [record(u32::MAX, "1", None, None), record(u32::MAX, "2", None, None), record(2, "3", None, None)];
    assert_eq!(
        summarize("Forma", &records, None),
        Ok(Summary { average: "3".to_owned(), moving_average: None, amount_sold: 8589934592 })
    );
}

#[test]
fn reply_fills_in_every_token() {
    let summary = Summary {
        average: "12.5".to_owned(),
        moving_average: Some("11.25".to_owned()),
        amount_sold: 42,
    };
    let format = "@{author} \"{item_name}\" average: {average}p - moving average: {moving_average}p | {amount_sold} sold in the last 48h";
    assert_eq!(
        reply(format, "bob", "Primed Flow", &summary),
        "@bob \"Primed Flow\" average: 12.5p - moving average: 11.25p | 42 sold in the last 48h"
    );
}

#[test]
fn reply_shows_unknown_without_a_moving_average() {
    let summary = Summary { average: "12.5".to_owned(), moving_average: None, amount_sold: 0 };
    assert_eq!(
        reply("{average}/{moving_average}/{amount_sold}/{item_name}/{author}", "bob", "Flow", &summary),
        "12.5/unknown/0/Flow/bob"
    );
}

#[test]
fn best_match_is_the_first_candidate_of_the_highest_similarity() {
    let names = [
        "Serration", "Split Chamber", "Primed Flow", "Flow", "Vitality", "Primed Vigor",
        "Vigor", "Serrated Edge", "Streamline", "Primed Continuity", "Continuity", "Flow",
    ];
    let candidates: Vec<Item> =
        names.iter().enumerate().map(|(i, name)| item(&format!("slug_{i}"), name)).collect();
    let queries = [
        "serration", "Serration", "flow", "Flow", "primed", "vigr", "cont", "", "zzz", "Streamlin",
        "Primed Flo", "split chamber", "S", "Vitalty",
    ];
    for query in queries {
        let mut best = 0;
        for (i, name) in names.iter().enumerate() {
            if textdistance::nstr::jaro_winkler(query, name)
                > textdistance::nstr::jaro_winkler(query, names[best])
            {
                best = i;
            }
        }
        assert_eq!(
            find_best_match(query, &candidates),
            Some((format!("slug_{best}"), names[best].to_owned())),
            "{:?}",
            query
        );
    }
}
