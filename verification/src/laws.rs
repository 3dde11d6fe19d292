use vstd::prelude::*;
use crate::api::{spec_res_version, store_page_version_pattern};
use crate::archive::{Instant, TrailerCheck, TrailerPlan, instant_before, may_have_started, spec_trailer_check, spec_trailer_plan};
use crate::config::{ConfigLoad, StartupAction, chosen_config, spec_startup_action, updated_version, version_changes};
use crate::json::Json;
use crate::login::{LoginActionView, LoginEventView, LoginPhase, LoginState, login_invariant, login_step, initial_login_state};
use crate::petal::{
    MatchingCard, card_lines, card_selection, character_cards, display_name, rarity_of,
    selected_cards, selected_in_characters, spec_matching_cards, spec_petal_report, spec_should_keep_card,
};
use crate::text::{ascii_text, before_first};

verus! {

/// A kept card stays kept with more items.
pub proof fn law_keep_is_monotone_in_items(card_datas_id: u64, fewer: u64, more: u64)
    requires
        fewer <= more,
        spec_should_keep_card(card_datas_id, fewer),
    ensures
        spec_should_keep_card(card_datas_id, more),
{
}

/// No card is kept without items, whatever its rarity.
pub proof fn law_no_items_never_kept(card_datas_id: u64)
    ensures
        !spec_should_keep_card(card_datas_id, 0),
{
}

/// Whether every card passed the filter and carries the rarity of its id.
pub open spec fn all_pass_filter(cards: Seq<MatchingCard>) -> bool {
    forall|i: int| 0 <= i < cards.len() ==> spec_should_keep_card((#[trigger] cards[i]).card_id, cards[i].item_num)
        && cards[i].rarity == rarity_of(cards[i].card_id)
}

proof fn lemma_selected_cards_pass(cards: Seq<Json>)
    ensures
        all_pass_filter(selected_cards(cards)),
    decreases cards.len(),
{
    if cards.len() > 0 {
        lemma_selected_cards_pass(cards.drop_last());
        let a = selected_cards(cards.drop_last());
        let b = card_selection(cards.last());
        assert(selected_cards(cards) == a + b);
        assert forall|i: int| 0 <= i < (a + b).len() implies spec_should_keep_card((#[trigger] (a + b)[i]).card_id, (a + b)[i].item_num)
            && (a + b)[i].rarity == rarity_of((a + b)[i].card_id) by {
            if i >= a.len() {
                assert((a + b)[i] == b[i - a.len()]);
            } else {
                assert((a + b)[i] == a[i]);
            }
        }
    }
}

proof fn lemma_selected_in_characters_pass(characters: Seq<Json>)
    ensures
        all_pass_filter(selected_in_characters(characters)),
    decreases characters.len(),
{
    if characters.len() > 0 {
        lemma_selected_in_characters_pass(characters.drop_last());
        lemma_selected_cards_pass(character_cards(characters.last()));
        let a = selected_in_characters(characters.drop_last());
        let b = selected_cards(character_cards(characters.last()));
        assert forall|i: int| 0 <= i < (a + b).len() implies spec_should_keep_card((#[trigger] (a + b)[i]).card_id, (a + b)[i].item_num)
            && (a + b)[i].rarity == rarity_of((a + b)[i].card_id) by {
            if i >= a.len() {
                assert((a + b)[i] == b[i - a.len()]);
            } else {
                assert((a + b)[i] == a[i]);
            }
        }
    }
}

/// Every card that the petal report lists passed the exchange filter and is
/// shown with the rarity that its id encodes.
pub proof fn law_reported_cards_pass_filter(exchange: Json)
    ensures
        all_pass_filter(spec_matching_cards(exchange)),
{
    lemma_selected_in_characters_pass(crate::petal::exchange_characters(exchange));
}

proof fn lemma_card_lines_len(cards: Seq<MatchingCard>, names: Json)
    ensures
        card_lines(cards, names).len() == cards.len(),
    decreases cards.len(),
{
    if cards.len() > 0 {
        lemma_card_lines_len(cards.drop_last(), names);
    }
}

/// The petal report has the coin line, then either the no-match line or the
/// count line followed by exactly one line per reported card.
pub proof fn law_report_has_one_line_per_card(exchange: Json, names: Json)
    ensures
        spec_petal_report(exchange, names).len() == if spec_matching_cards(exchange).len() == 0 {
            2
        } else {
            2 + spec_matching_cards(exchange).len()
        },
{
    lemma_card_lines_len(spec_matching_cards(exchange), names);
}

/// Without a card-name table every series is shown by its id.
pub proof fn law_unnamed_series_show_their_id(series_key: Seq<char>)
    ensures
        display_name(Json::Null, series_key) == series_key,
{
}

/// A configuration file given on the command line that exists is the one
/// loaded, whatever else exists.
pub proof fn law_command_line_config_wins(
    args: Seq<char>,
    current: Seq<char>,
    current_exists: bool,
    home: Seq<char>,
    home_exists: bool,
)
    ensures
        chosen_config(Some(args), true, current, current_exists, home, home_exists) == Some(args),
{
}

/// When no configuration file exists, nothing is loaded.
pub proof fn law_no_config_file_loads_nothing(args: Option<Seq<char>>, current: Seq<char>, home: Seq<char>)
    ensures
        chosen_config(args, false, current, false, home, false) is None,
{
}

/// A configuration is loaded whenever one of the candidate files exists.
pub proof fn law_existing_config_is_loaded(
    args: Option<Seq<char>>,
    args_exists: bool,
    current: Seq<char>,
    current_exists: bool,
    home: Seq<char>,
    home_exists: bool,
)
    requires
        (args is Some && args_exists) || current_exists || home_exists,
    ensures
        chosen_config(args, args_exists, current, current_exists, home, home_exists) is Some,
{
}

/// Checking the versions again with the same reports changes nothing more.
pub proof fn law_version_update_is_idempotent(stored: Seq<char>, reported: Option<Seq<char>>)
    ensures
        updated_version(updated_version(stored, reported), reported) == updated_version(stored, reported),
        !version_changes(updated_version(stored, reported), reported),
{
}

/// After a version check the stored version is the reported one, if any.
pub proof fn law_reported_version_is_stored(stored: Seq<char>, reported: Seq<char>)
    ensures
        updated_version(stored, Some(reported)) == reported,
        version_changes(stored, Some(reported)) <==> reported != stored,
{
}

/// The order in which the login phases are passed.
pub open spec fn phase_rank(p: LoginPhase) -> int {
    match p {
        LoginPhase::Start => 0,
        LoginPhase::FirstLogin => 1,
        LoginPhase::Probing => 2,
        LoginPhase::Relogin => 3,
        LoginPhase::Finished => 4,
        LoginPhase::Failed => 4,
    }
}

/// Every step of the login flow keeps its invariant.
pub proof fn law_login_step_keeps_invariant(s: LoginState, e: LoginEventView)
    requires
        login_invariant(s),
    ensures
        login_invariant(login_step(s, e).0),
{
}

/// The login flow only moves forward: a step that does something enters a
/// later phase, so a flow logs in at most twice and ends after at most four
/// steps that do something.
pub proof fn law_login_moves_forward(s: LoginState, e: LoginEventView)
    ensures
        login_step(s, e).1 !is Ignore ==> phase_rank(login_step(s, e).0.phase) > phase_rank(s.phase),
        login_step(s, e).1 is Ignore ==> login_step(s, e).0 == s,
{
}

/// A finished or failed login ignores every further event.
pub proof fn law_login_end_is_final(s: LoginState, e: LoginEventView)
    requires
        s.phase == LoginPhase::Finished || s.phase == LoginPhase::Failed,
    ensures
        login_step(s, e) == (s, LoginActionView::Ignore),
{
}

/// When the login finishes, the API client holds exactly the session token
/// that the configuration keeps.
pub proof fn law_finished_login_holds_kept_token(s: LoginState)
    requires
        login_invariant(s),
        s.phase == LoginPhase::Finished,
    ensures
        s.installed is Some,
        s.installed == s.session_token,
{
}

/// A stored session token that passes the probe is used without logging in,
/// kept, and announced.
pub proof fn law_valid_stored_token_needs_no_login(token: Seq<char>)
    ensures ({
        let (s1, a1) = login_step(initial_login_state(Some(token)), LoginEventView::Begin);
        let (s2, a2) = login_step(s1, LoginEventView::ProbeSucceeded);
        &&& a1 == LoginActionView::InstallAndProbe(token)
        &&& a2 == LoginActionView::Finish(token)
        &&& s2.phase == LoginPhase::Finished
        &&& s2.session_token == Some(token)
        &&& s2.installed == Some(token)
    }),
{
}

/// A refused token is replaced by the one a new login returns, while the
/// success message still names the token first used.
pub proof fn law_refused_token_is_replaced(stored: Seq<char>, fresh: Seq<char>)
    ensures ({
        let (s1, _a1) = login_step(initial_login_state(Some(stored)), LoginEventView::Begin);
        let (s2, a2) = login_step(s1, LoginEventView::ProbeFailed);
        let (s3, a3) = login_step(s2, LoginEventView::LoggedIn(fresh));
        &&& a2 == LoginActionView::ClearAndRelogin
        &&& a3 == LoginActionView::InstallAndFinish(fresh, stored)
        &&& s3.phase == LoginPhase::Finished
        &&& s3.session_token == Some(fresh)
        &&& s3.installed == Some(fresh)
    }),
{
}

proof fn lemma_before_first_excludes(bytes: Seq<u8>, sep: u8)
    ensures
        forall|i: int| 0 <= i < before_first(bytes, sep).len() ==> before_first(bytes, sep)[i] != sep,
        before_first(bytes, sep).len() <= bytes.len(),
    decreases bytes.len(),
{
    if bytes.len() > 0 && bytes[0] != sep {
        lemma_before_first_excludes(bytes.drop_first(), sep);
        let rest = before_first(bytes.drop_first(), sep);
        assert forall|i: int| 0 <= i < (seq![bytes[0]] + rest).len() implies (seq![bytes[0]] + rest)[i] != sep by {
            if i > 0 {
                assert((seq![bytes[0]] + rest)[i] == rest[i - 1]);
            }
        }
    }
}

/// The resource version read from a header never holds an `@`.
pub proof fn law_res_version_has_no_at(header: Seq<u8>)
    ensures
        forall|i: int| 0 <= i < spec_res_version(Some(header)).unwrap().len() ==> spec_res_version(Some(header)).unwrap()[i] != '@',
{
    lemma_before_first_excludes(header, 64);
    let kept = before_first(header, 64);
    assert forall|i: int| 0 <= i < ascii_text(kept).len() implies ascii_text(kept)[i] != '@' by {
        assert(kept[i] != 64);
        assert(ascii_text(kept)[i] == kept[i] as char);
    }
}


/// Nothing is fetched about a live before it opens, and its connect token is
/// fetched only for a "with meets" live from ten minutes before its start.
pub proof fn law_connect_token_only_near_start(now: Instant, open: Instant, start: Instant, live_type: u64)
    ensures
        instant_before(now, open) ==> spec_trailer_plan(now, open, start, live_type) == TrailerPlan::NotOpenYet,
        spec_trailer_plan(now, open, start, live_type) == (TrailerPlan::WithMeets { fetch_connect_token: true })
            ==> live_type == 2 && !instant_before(now, open) && may_have_started(now, start),
{
}

/// Once a live may have started, it stays so as time goes on.
pub proof fn law_started_stays_started(earlier: Instant, later: Instant, start: Instant)
    requires
        may_have_started(earlier, start),
        !instant_before(later, earlier),
    ensures
        may_have_started(later, start),
{
}


/// The exchange filter's thresholds: a UR card (rarity digit 5) is kept from
/// 101 items on, a BR card (9) from 76, an SR card (4) from 51, an R card (3)
/// from 26, and a card of any other rarity digit from 1.
pub proof fn law_keep_thresholds(card_datas_id: u64, item_num: u64)
    ensures
        (card_datas_id / 1000) % 10 == 5 ==> (spec_should_keep_card(card_datas_id, item_num) <==> item_num >= 101),
        (card_datas_id / 1000) % 10 == 9 ==> (spec_should_keep_card(card_datas_id, item_num) <==> item_num >= 76),
        (card_datas_id / 1000) % 10 == 4 ==> (spec_should_keep_card(card_datas_id, item_num) <==> item_num >= 51),
        (card_datas_id / 1000) % 10 == 3 ==> (spec_should_keep_card(card_datas_id, item_num) <==> item_num >= 26),
        (card_datas_id / 1000) % 10 != 3 && (card_datas_id / 1000) % 10 != 4 && (card_datas_id / 1000) % 10 != 5
            && (card_datas_id / 1000) % 10 != 9 ==> (spec_should_keep_card(card_datas_id, item_num) <==> item_num >= 1),
{
}

/// An exchange entry with a card id and an item count is listed exactly when
/// the count reaches its rarity's threshold, and is listed with that id and count.
pub proof fn law_listed_entry_follows_thresholds(card: Json, id: u64, item_num: u64)
    requires
        card.u64_field("card_datas_id"@) == Some(id),
        card.u64_field("item_num"@) == Some(item_num),
    ensures
        card_selection(card).len() <= 1,
        card_selection(card).len() == 1 <==> {
            let d = (id / 1000) % 10;
            ||| d == 5 && item_num >= 101
            ||| d == 9 && item_num >= 76
            ||| d == 4 && item_num >= 51
            ||| d == 3 && item_num >= 26
            ||| d != 3 && d != 4 && d != 5 && d != 9 && item_num >= 1
        },
        card_selection(card).len() == 1 ==> card_selection(card)[0].card_id == id
            && card_selection(card)[0].item_num == item_num,
{
}

/// Without a usable command-line file, an existing working-directory file is
/// loaded, whether or not the home file exists.
pub proof fn law_working_directory_before_home(
    args: Option<Seq<char>>,
    args_exists: bool,
    current: Seq<char>,
    home: Seq<char>,
    home_exists: bool,
)
    requires
        args is None || !args_exists,
    ensures
        chosen_config(args, args_exists, current, true, home, home_exists) == Some(current),
{
}

/// The home file is loaded only when it exists and neither a usable
/// command-line file nor a working-directory file does.
pub proof fn law_home_file_is_the_last_resort(
    args: Option<Seq<char>>,
    args_exists: bool,
    current: Seq<char>,
    current_exists: bool,
    home: Seq<char>,
    home_exists: bool,
)
    requires
        args is None || !args_exists,
        !current_exists,
    ensures
        chosen_config(args, args_exists, current, current_exists, home, home_exists) == if home_exists {
            Some(home)
        } else {
            None
        },
{
}

/// Without a loaded configuration, start-up always asks for credentials, with
/// or without the skip flag; the stored configuration is used or checked only
/// when one was loaded, and the skip flag alone decides between the two.
pub proof fn law_start_up_without_config_creates_credential(load: ConfigLoad, skip: bool)
    ensures
        load != ConfigLoad::Found ==> spec_startup_action(load, skip) == StartupAction::CreateCredential,
        load == ConfigLoad::Found ==> spec_startup_action(load, skip) != StartupAction::CreateCredential,
        load == ConfigLoad::Found ==> (spec_startup_action(load, skip) == StartupAction::UseStored <==> skip),
{
}

/// A regular-expression item matching one or more decimal digits.
pub open spec fn digits_item() -> Seq<char> {
    seq!['\\', 'd', '+']
}

/// A regular-expression item matching a literal dot.
pub open spec fn dot_item() -> Seq<char> {
    seq!['\\', '.']
}

/// The store-page version pattern is `\"versionDisplay\":\"` (each backslash
/// escaped), a group of three one-or-more-digit numbers separated by dots,
/// and a backslash.
pub proof fn law_store_page_pattern_reads_three_numbers()
    ensures
        store_page_version_pattern() == seq!['\\', '\\', '"', 'v', 'e', 'r', 's', 'i', 'o', 'n', 'D', 'i', 's', 'p', 'l', 'a', 'y',
            '\\', '\\', '"', ':', '\\', '\\', '"', '('] + digits_item() + dot_item() + digits_item() + dot_item()
            + digits_item() + seq![')', '\\', '\\'],
{
    reveal_strlit(r#"\\"versionDisplay\\":\\"(\d+\.\d+\.\d+)\\"#);
    assert(store_page_version_pattern() =~= seq!['\\', '\\', '"', 'v', 'e', 'r', 's', 'i', 'o', 'n', 'D', 'i', 's', 'p', 'l', 'a', 'y',
            '\\', '\\', '"', ':', '\\', '\\', '"', '('] + digits_item() + dot_item() + digits_item() + dot_item()
            + digits_item() + seq![')', '\\', '\\']);
}

/// With a clock that reads and both times in RFC 3339, planning always plans:
/// before the opening it plans nothing more; after it, a fes live has its room
/// fetched whether or not it has started, another kind (not "with meets")
/// nothing, and a "with meets" live its room, with the token from ten minutes
/// before the start (a start inside a leap second counting from the next second).
pub proof fn law_readable_clock_always_plans(open: (i64, u32), start: (i64, u32), now: Instant, later: Instant, live_type: u64)
    ensures ({
        let r = spec_trailer_check(Some(open), Some(start), Some(now), Some(later), live_type);
        let opened = !(now.secs < open.0 || (now.secs == open.0 && now.nanos < open.1));
        let threshold_secs = start.0 + start.1 as int / 1_000_000_000 - 600;
        let threshold_nanos = start.1 as int % 1_000_000_000;
        let near_start = !(later.secs < threshold_secs || (later.secs == threshold_secs && later.nanos < threshold_nanos));
        match r {
            TrailerCheck::Planned { opened_check, start_check, plan } => {
                &&& opened_check == now
                &&& !opened ==> plan == TrailerPlan::NotOpenYet && start_check is None
                &&& opened ==> start_check == Some(later)
                &&& opened && live_type == 1 ==> plan == TrailerPlan::FesLive
                &&& opened && live_type == 2 ==> plan == (TrailerPlan::WithMeets { fetch_connect_token: near_start })
                &&& opened && live_type != 1 && live_type != 2 ==> plan == TrailerPlan::Nothing
            },
            _ => false,
        }
    }),
{
}

} // verus!
