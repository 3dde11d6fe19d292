use vstd::prelude::*;
use crate::json::Json;
use crate::text::{decimal, decimal_string};

verus! {

/// Rarity digit of a card: the fourth decimal digit from the right of its id.
pub open spec fn rarity_digit(card_datas_id: u64) -> u64 {
    (card_datas_id / 1000) % 10
}

/// The least number of limit-break items above which a card of the given
/// rarity digit is worth reporting.
pub open spec fn keep_threshold(digit: u64) -> u64 {
    if digit == 5 {
        100
    } else if digit == 9 {
        75
    } else if digit == 4 {
        50
    } else if digit == 3 {
        25
    } else {
        0
    }
}

/// Whether a card is kept by the exchange filter.
pub open spec fn spec_should_keep_card(card_datas_id: u64, item_num: u64) -> bool {
    item_num > keep_threshold(rarity_digit(card_datas_id))
}

/// Filters exchange entries by the rarity digit of `card_datas_id`:
/// UR (5) needs more than 100 items, BR (9) more than 75, SR (4) more than 50,
/// R (3) more than 25, and any other rarity at least one.
pub fn should_keep_card(card_datas_id: u64, item_num: u64) -> (keep: bool)
    ensures
        keep == spec_should_keep_card(card_datas_id, item_num),
{
    let fifth_digit = (card_datas_id / 1000) % 10;
    match fifth_digit {
        5 => item_num > 100,
        9 => item_num > 75,
        4 => item_num > 50,
        3 => item_num > 25,
        _ => item_num > 0,
    }
}


/// Card rarity, read from the rarity digit of the card id.
#[derive(Clone, Copy, PartialEq, Eq, Debug)]
pub enum Rarity {
    UR,
    BR,
    SR,
    R,
    Other,
}

/// The rarity that a card id encodes.
pub open spec fn rarity_of(card_datas_id: u64) -> Rarity {
    let d = rarity_digit(card_datas_id);
    if d == 5 {
        Rarity::UR
    } else if d == 9 {
        Rarity::BR
    } else if d == 4 {
        Rarity::SR
    } else if d == 3 {
        Rarity::R
    } else {
        Rarity::Other
    }
}

/// The name under which a rarity is reported.
pub open spec fn rarity_label(r: Rarity) -> Seq<char> {
    match r {
        Rarity::UR => "UR"@,
        Rarity::BR => "BR"@,
        Rarity::SR => "SR"@,
        Rarity::R => "R"@,
        Rarity::Other => "Other"@,
    }
}

impl Rarity {
    /// Classifies a card id by its rarity digit.
    pub fn of(card_datas_id: u64) -> (r: Rarity)
        ensures
            r == rarity_of(card_datas_id),
    {
        match (card_datas_id / 1000) % 10 {
            5 => Rarity::UR,
            9 => Rarity::BR,
            4 => Rarity::SR,
            3 => Rarity::R,
            _ => Rarity::Other,
        }
    }

    /// The report label of the rarity.
    pub fn label(&self) -> (s: String)
        ensures
            s@ == rarity_label(*self),
    {
        match self {
            Rarity::UR => String::from_str("UR"),
            Rarity::BR => String::from_str("BR"),
            Rarity::SR => String::from_str("SR"),
            Rarity::R => String::from_str("R"),
            Rarity::Other => String::from_str("Other"),
        }
    }
}

/// An exchange entry that passed the filter.
#[derive(Clone, Copy, PartialEq, Eq, Debug)]
pub struct MatchingCard {
    pub series_id: u64,
    pub card_id: u64,
    pub item_num: u64,
    pub rarity: Rarity,
}

/// `o`'s value, or `d` when absent.
pub open spec fn or_default(o: Option<u64>, d: u64) -> u64 {
    match o {
        Some(v) => v,
        None => d,
    }
}

/// The elements of `o`, or nothing when absent.
pub open spec fn or_empty(o: Option<Seq<Json>>) -> Seq<Json> {
    match o {
        Some(v) => v,
        None => Seq::empty(),
    }
}

/// What one exchange entry contributes to the report: the entry when it names
/// a card id and passes the filter, with missing counts read as zero.
pub open spec fn card_selection(card: Json) -> Seq<MatchingCard> {
    match card.u64_field("card_datas_id"@) {
        Some(id) => {
            let item_num = or_default(card.u64_field("item_num"@), 0);
            if spec_should_keep_card(id, item_num) {
                seq![MatchingCard {
                    series_id: or_default(card.u64_field("card_series_id"@), 0),
                    card_id: id,
                    item_num,
                    rarity: rarity_of(id),
                }]
            } else {
                Seq::empty()
            }
        },
        None => Seq::empty(),
    }
}

/// The selected entries of a list of exchange entries, in order.
pub open spec fn selected_cards(cards: Seq<Json>) -> Seq<MatchingCard>
    decreases cards.len(),
{
    if cards.len() == 0 {
        Seq::empty()
    } else {
        selected_cards(cards.drop_last()) + card_selection(cards.last())
    }
}

/// The exchange entries listed under one character.
pub open spec fn character_cards(character: Json) -> Seq<Json> {
    or_empty(character.array_field("limit_break_exchange_list"@))
}

/// The selected entries of all characters, character by character.
pub open spec fn selected_in_characters(characters: Seq<Json>) -> Seq<MatchingCard>
    decreases characters.len(),
{
    if characters.len() == 0 {
        Seq::empty()
    } else {
        selected_in_characters(characters.drop_last()) + selected_cards(character_cards(characters.last()))
    }
}

/// The characters of a petal-exchange listing.
pub open spec fn exchange_characters(exchange: Json) -> Seq<Json> {
    or_empty(exchange.array_field("character_petal_exchange_list"@))
}

/// The entries of a petal-exchange listing that the report shows.
pub open spec fn spec_matching_cards(exchange: Json) -> Seq<MatchingCard> {
    selected_in_characters(exchange_characters(exchange))
}

/// The non-negative integer member `key` of `j`, if any.
fn u64_member(j: &Json, key: &str) -> (r: Option<u64>)
    ensures
        r == j.u64_field(key@),
{
    match j.get(key) {
        Some(v) => v.as_u64(),
        None => None,
    }
}

/// The selection of one exchange entry.
fn select_card(card: &Json) -> (r: Option<MatchingCard>)
    ensures
        card_selection(*card) == match r {
            Some(m) => seq![m],
            None => Seq::<MatchingCard>::empty(),
        },
{
    match u64_member(card, "card_datas_id") {
        Some(card_id) => {
            let item_num = match u64_member(card, "item_num") {
                Some(n) => n,
                None => 0,
            };
            if should_keep_card(card_id, item_num) {
                let series_id = match u64_member(card, "card_series_id") {
                    Some(n) => n,
                    None => 0,
                };
                Some(MatchingCard { series_id, card_id, item_num, rarity: Rarity::of(card_id) })
            } else {
                None
            }
        },
        None => None,
    }
}

/// The array member `key` of `j`, or an empty list.
fn array_member<'a>(j: &'a Json, key: &str, empty: &'a Vec<Json>) -> (r: &'a Vec<Json>)
    requires
        empty@.len() == 0,
    ensures
        r@ == or_empty(j.array_field(key@)),
{
    match j.get(key) {
        Some(v) => match v.as_array() {
            Some(a) => a,
            None => empty,
        },
        None => empty,
    }
}

/// Collects the exchange entries worth reporting: every entry, character by
/// character, that names a card id and passes `should_keep_card`, with a
/// missing item count read as zero and a missing series id as zero.
pub fn matching_cards(exchange: &Json) -> (cards: Vec<MatchingCard>)
    ensures
        cards@ == spec_matching_cards(*exchange),
{
    let empty: Vec<Json> = Vec::new();
    let characters = array_member(exchange, "character_petal_exchange_list", &empty);
    let mut result: Vec<MatchingCard> = Vec::new();
    let mut i: usize = 0;
    while i < characters.len()
        invariant
            i <= characters@.len(),
            empty@.len() == 0,
            characters@ == exchange_characters(*exchange),
            result@ == selected_in_characters(characters@.take(i as int)),
        decreases characters@.len() - i,
    {
        let cards = array_member(&characters[i], "limit_break_exchange_list", &empty);
        let ghost before = result@;
        let mut j: usize = 0;
        while j < cards.len()
            invariant
                j <= cards@.len(),
                i < characters@.len(),
                cards@ == character_cards(characters@[i as int]),
                before == selected_in_characters(characters@.take(i as int)),
                result@ == before + selected_cards(cards@.take(j as int)),
            decreases cards@.len() - j,
        {
            let picked = select_card(&cards[j]);
            assert(cards@.take(j + 1).drop_last() =~= cards@.take(j as int));
            match picked {
                Some(m) => {
                    result.push(m);
                },
                None => {},
            }
            assert(result@ =~= before + selected_cards(cards@.take(j + 1)));
            j = j + 1;
        }
        assert(cards@.take(j as int) =~= cards@);
        assert(characters@.take(i + 1).drop_last() =~= characters@.take(i as int));
        i = i + 1;
    }
    assert(characters@.take(i as int) =~= characters@);
    result
}


/// The name that the last string-valued member `key` of `entries` gives,
/// the way repeated inserts into a map keep the last one.
pub open spec fn table_name(entries: Seq<(String, Json)>, key: Seq<char>) -> Option<Seq<char>>
    decreases entries.len(),
{
    if entries.len() == 0 {
        None
    } else if entries.last().0@ == key && entries.last().1.str_view() is Some {
        entries.last().1.str_view()
    } else {
        table_name(entries.drop_last(), key)
    }
}

/// The display name of a card series: the name that the card-name table gives
/// the series id, or the series id itself. A table that is not an object names
/// nothing.
pub open spec fn display_name(names: Json, series_key: Seq<char>) -> Seq<char> {
    match names {
        Json::Object(entries) => match table_name(entries@, series_key) {
            Some(n) => n,
            None => series_key,
        },
        _ => series_key,
    }
}

/// Looks up the display name of a card series in the card-name table
/// (an object from series id to name); unnamed series show their id.
pub fn card_display_name(names: &Json, series_key: &String) -> (name: String)
    ensures
        name@ == display_name(*names, series_key@),
{
    match names {
        Json::Object(entries) => {
            let mut i: usize = entries.len();
            assert(entries@.take(i as int) =~= entries@);
            while i > 0
                invariant
                    i <= entries@.len(),
                    *names == Json::Object(*entries),
                    display_name(*names, series_key@) == match table_name(entries@.take(i as int), series_key@) {
                        Some(n) => n,
                        None => series_key@,
                    },
                decreases i,
            {
                let ghost pre = entries@.take(i as int);
                assert(pre.drop_last() =~= entries@.take(i - 1));
                assert(pre.last() == entries@[i - 1]);
                let entry = &entries[i - 1];
                if entry.0 == *series_key {
                    match &entry.1 {
                        Json::Str(n) => {
                            return n.clone();
                        },
                        _ => {},
                    }
                }
                i = i - 1;
            }
            series_key.clone()
        },
        _ => series_key.clone(),
    }
}

/// The report line of one selected card.
pub open spec fn card_line(card: MatchingCard, names: Json) -> Seq<char> {
    display_name(names, decimal(card.series_id as nat)) + " ("@ + rarity_label(card.rarity)
        + ") - num: "@ + decimal(card.item_num as nat)
}

/// The report lines of the selected cards, in order.
pub open spec fn card_lines(cards: Seq<MatchingCard>, names: Json) -> Seq<Seq<char>>
    decreases cards.len(),
{
    if cards.len() == 0 {
        Seq::empty()
    } else {
        card_lines(cards.drop_last(), names).push(card_line(cards.last(), names))
    }
}

/// The petal coins that a listing reports, zero when it reports none.
pub open spec fn petal_coin_num(exchange: Json) -> u64 {
    or_default(exchange.u64_field("petal_coin_num"@), 0)
}

/// The whole petal-exchange report: the coin count, then either a note that
/// nothing matched or a count followed by one line per selected card.
pub open spec fn spec_petal_report(exchange: Json, names: Json) -> Seq<Seq<char>> {
    let cards = spec_matching_cards(exchange);
    let head = seq!["Current petal coin num: "@ + decimal(petal_coin_num(exchange) as nat)];
    if cards.len() == 0 {
        head.push("No cards matched the filter condition"@)
    } else {
        head.push("Found "@ + decimal(cards.len()) + " matching cards:"@) + card_lines(cards, names)
    }
}

/// Builds the report line of one selected card.
fn render_card_line(card: &MatchingCard, names: &Json) -> (line: String)
    ensures
        line@ == card_line(*card, *names),
{
    let series_key = decimal_string(card.series_id);
    let mut line = card_display_name(names, &series_key);
    line.append(" (");
    let label = card.rarity.label();
    line.append(label.as_str());
    line.append(") - num: ");
    let count = decimal_string(card.item_num);
    line.append(count.as_str());
    line
}

/// The lines that the default command logs about the petal exchange, given the
/// listing and the card-name table (`Json::Null` when there is none).
pub fn petal_report(exchange: &Json, names: &Json) -> (lines: Vec<String>)
    ensures
        lines@.map_values(|l: String| l@) == spec_petal_report(*exchange, *names),
{
    let cards = matching_cards(exchange);
    let coins = match u64_member(exchange, "petal_coin_num") {
        Some(n) => n,
        None => 0,
    };
    let mut lines: Vec<String> = Vec::new();
    let mut head = String::from_str("Current petal coin num: ");
    let coins_text = decimal_string(coins);
    head.append(coins_text.as_str());
    lines.push(head);
    if cards.len() == 0 {
        lines.push(String::from_str("No cards matched the filter condition"));
        assert(lines@.map_values(|l: String| l@) =~= spec_petal_report(*exchange, *names));
        return lines;
    }
    let mut found = String::from_str("Found ");
    let count_text = decimal_string(cards.len() as u64);
    found.append(count_text.as_str());
    found.append(" matching cards:");
    lines.push(found);
    let ghost prefix = lines@.map_values(|l: String| l@);
    let mut k: usize = 0;
    while k < cards.len()
        invariant
            k <= cards@.len(),
            cards@ == spec_matching_cards(*exchange),
            prefix.len() == 2,
            lines@.map_values(|l: String| l@) == prefix + card_lines(cards@.take(k as int), *names),
        decreases cards@.len() - k,
    {
        let ghost before = lines@;
        let line = render_card_line(&cards[k], names);
        lines.push(line);
        assert(cards@.take(k + 1).drop_last() =~= cards@.take(k as int));
        assert(cards@.take(k + 1).last() == cards@[k as int]);
        assert(lines@.map_values(|l: String| l@) =~= before.map_values(|l: String| l@).push(line@));
        assert(lines@.map_values(|l: String| l@) =~= prefix + card_lines(cards@.take(k + 1), *names));
        k = k + 1;
    }
    assert(cards@.take(k as int) =~= cards@);
    lines
}

} // verus!
