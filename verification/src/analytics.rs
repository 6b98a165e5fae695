//! The streamer's analytics page and dashboard test alert: the time range
//! of the revenue chart and the query behind it, the payment-method chart's
//! data, the colours of the summary cards, and the random test donation.
use vstd::prelude::*;
use rand::Rng;
use crate::text::{dec_int, owned, push_signed_decimal, replace, replace_all, str_eq};

verus! {

/// The SQL interval of the revenue chart for a time range: a day, a month,
/// or a week for anything else.
pub open spec fn spec_interval(range: Seq<char>) -> Seq<char> {
    if range == "day"@ {
        "24 hours"@
    } else if range == "month"@ {
        "30 days"@
    } else {
        "7 days"@
    }
}

/// The SQL date format grouping the revenue chart: by hour for a day, by
/// calendar day otherwise.
pub open spec fn spec_date_format(range: Seq<char>) -> Seq<char> {
    if range == "day"@ {
        "HH24:00"@
    } else {
        "MM-DD"@
    }
}

/// The revenue chart groups by hour of day only for the 24-hour range;
/// every other range (the week, the month, and any unknown text) groups by
/// calendar day. The ranges cover 24 hours, 30 days for the month, and 7
/// days for every other text.
pub proof fn law_revenue_grouping(range: Seq<char>)
    ensures
        spec_date_format("day"@) == "HH24:00"@,
        range != "day"@ ==> spec_date_format(range) == "MM-DD"@,
        spec_interval("day"@) == "24 hours"@,
        spec_interval("month"@) == "30 days"@,
        range != "day"@ && range != "month"@ ==> spec_interval(range) == "7 days"@,
{
    reveal_strlit("day");
    reveal_strlit("month");
    assert("month"@.len() != "day"@.len());
}

/// The SQL interval of the revenue chart for a time range.
pub fn revenue_interval(range: &str) -> (r: &'static str)
    ensures
        r@ == spec_interval(range@),
        range@ == "day"@ ==> r@ == "24 hours"@,
        range@ == "month"@ ==> r@ == "30 days"@,
        range@ != "day"@ && range@ != "month"@ ==> r@ == "7 days"@,
{
    proof {
        reveal_strlit("day");
        reveal_strlit("month");
        assert("month"@.len() != "day"@.len());
    }
    if str_eq(range, "day") {
        "24 hours"
    } else if str_eq(range, "month") {
        "30 days"
    } else {
        "7 days"
    }
}

/// The SQL date format grouping the revenue chart.
pub fn revenue_date_format(range: &str) -> (r: &'static str)
    ensures
        r@ == spec_date_format(range@),
        range@ == "day"@ ==> r@ == "HH24:00"@,
        range@ != "day"@ ==> r@ == "MM-DD"@,
{
    if str_eq(range, "day") {
        "HH24:00"
    } else {
        "MM-DD"
    }
}

/// The query for revenue per period over the chosen time range.
pub open spec fn spec_revenue_query(range: Seq<char>) -> Seq<char> {
    let f = spec_date_format(range);
    "SELECT TO_CHAR(created_at, '"@ + f
        + "') as date, SUM(amount) as daily_revenue\n             FROM transactions \n             WHERE streamer_id = $1 AND created_at >= NOW() - INTERVAL '"@
        + spec_interval(range) + "'\n             GROUP BY TO_CHAR(created_at, '"@ + f
        + "')\n             ORDER BY date ASC"@
}

/// The query for revenue per period over the chosen time range; only the
/// fixed interval and format texts are spliced in, never the caller's text.
pub fn revenue_over_time_query(range: &str) -> (q: String)
    ensures
        q@ == spec_revenue_query(range@),
{
    let f = revenue_date_format(range);
    let mut q = owned("SELECT TO_CHAR(created_at, '");
    q.append(f);
    q.append(
        "') as date, SUM(amount) as daily_revenue\n             FROM transactions \n             WHERE streamer_id = $1 AND created_at >= NOW() - INTERVAL '",
    );
    q.append(revenue_interval(range));
    q.append("'\n             GROUP BY TO_CHAR(created_at, '");
    q.append(f);
    q.append("')\n             ORDER BY date ASC");
    q
}

/// The label of a time-range button.
pub fn time_range_label(range: &str) -> (r: &'static str)
    ensures
        r@ == (if range@ == "day"@ {
            "24h"@
        } else if range@ == "week"@ {
            "7d"@
        } else if range@ == "month"@ {
            "30d"@
        } else {
            ""@
        }),
{
    if str_eq(range, "day") {
        "24h"
    } else if str_eq(range, "week") {
        "7d"
    } else if str_eq(range, "month") {
        "30d"
    } else {
        ""
    }
}

/// One `[name, count]` pair of the payment-method chart, the name's double
/// quotes escaped with a backslash.
pub open spec fn breakdown_item(name: Seq<char>, count: i64) -> Seq<char> {
    "[\""@ + replace_all(name, "\""@, "\\\""@) + "\","@ + dec_int(count as int) + "]"@
}

/// The pairs joined with commas.
pub open spec fn breakdown_items(rows: Seq<(Seq<char>, i64)>) -> Seq<char>
    decreases rows.len(),
{
    if rows.len() == 0 {
        Seq::empty()
    } else if rows.len() == 1 {
        breakdown_item(rows[0].0, rows[0].1)
    } else {
        breakdown_items(rows.drop_last()) + ","@ + breakdown_item(rows.last().0, rows.last().1)
    }
}

/// The JSON array handed to the payment-method pie chart.
pub open spec fn spec_breakdown_json(rows: Seq<(Seq<char>, i64)>) -> Seq<char> {
    "["@ + breakdown_items(rows) + "]"@
}

/// The chart JSON holds one pair per row, in the rows' order: no rows give
/// `[]`, one row gives `[pair]`, and adding a row to the end adds its pair,
/// after a comma, just before the closing bracket.
pub proof fn law_breakdown_json_appends_row(rows: Seq<(Seq<char>, i64)>, r: (Seq<char>, i64))
    ensures
        spec_breakdown_json(Seq::empty()) == "[]"@,
        spec_breakdown_json(seq![r]) == "["@ + breakdown_item(r.0, r.1) + "]"@,
        rows.len() > 0 ==> spec_breakdown_json(rows.push(r)) == spec_breakdown_json(
            rows,
        ).drop_last() + ","@ + breakdown_item(r.0, r.1) + "]"@,
{
    reveal_strlit("[]");
    reveal_strlit("[");
    reveal_strlit("]");
    assert(spec_breakdown_json(Seq::empty()) =~= "[]"@);
    assert(seq![r].len() == 1 && seq![r][0] == r);
    if rows.len() > 0 {
        let p = rows.push(r);
        assert(p.drop_last() =~= rows);
        assert(p.last() == r);
        let j = spec_breakdown_json(rows);
        assert(j.drop_last() =~= "["@ + breakdown_items(rows));
        assert(spec_breakdown_json(p) =~= j.drop_last() + ","@ + breakdown_item(r.0, r.1) + "]"@);
    }
}

/// The plain-value view of the chart rows.
pub open spec fn rows_view(rows: Seq<(String, i64)>) -> Seq<(Seq<char>, i64)> {
    rows.map_values(|r: (String, i64)| (r.0@, r.1))
}

/// The JSON array `[["name",count],...]` handed to the payment-method pie
/// chart.
pub fn payment_breakdown_json(rows: &Vec<(String, i64)>) -> (json: String)
    ensures
        json@ == spec_breakdown_json(rows_view(rows@)),
{
    proof {
        reveal_strlit("\"");
    }
    let ghost rv = rows_view(rows@);
    let mut items = String::new();
    let mut i: usize = 0;
    while i < rows.len()
        invariant
            i <= rows@.len(),
            rv == rows_view(rows@),
            "\""@.len() == 1,
            items@ == breakdown_items(rv.take(i as int)),
        decreases rows@.len() - i,
    {
        if i > 0 {
            items.append(",");
        }
        items.append("[\"");
        let escaped = replace(rows[i].0.as_str(), "\"", "\\\"");
        items.append(escaped.as_str());
        items.append("\",");
        push_signed_decimal(&mut items, rows[i].1);
        items.append("]");
        assert(rv.take(i + 1).drop_last() =~= rv.take(i as int));
        assert(rv.take(i + 1).last() == (rows@[i as int].0@, rows@[i as int].1));
        if i == 0 {
            assert(rv.take(0) =~= Seq::<(Seq<char>, i64)>::empty());
        }
        assert(items@ =~= breakdown_items(rv.take(i + 1)));
        i = i + 1;
    }
    assert(rv.take(rows@.len() as int) =~= rv);
    let mut json = owned("[");
    json.append(items.as_str());
    json.append("]");
    json
}

/// The text colour class of a summary card.
pub fn kpi_color_class(color: &str) -> (r: &'static str)
    ensures
        r@ == (if color@ == "primary"@ {
            "text-primary"@
        } else if color@ == "secondary"@ {
            "text-secondary"@
        } else if color@ == "tertiary"@ {
            "text-tertiary"@
        } else {
            "text-on-surface"@
        }),
{
    if str_eq(color, "primary") {
        "text-primary"
    } else if str_eq(color, "secondary") {
        "text-secondary"
    } else if str_eq(color, "tertiary") {
        "text-tertiary"
    } else {
        "text-on-surface"
    }
}

/// The icon background class of a summary card.
pub fn kpi_icon_bg_class(color: &str) -> (r: &'static str)
    ensures
        r@ == (if color@ == "primary"@ {
            "bg-primary/15"@
        } else if color@ == "secondary"@ {
            "bg-secondary/15"@
        } else if color@ == "tertiary"@ {
            "bg-tertiary/15"@
        } else {
            "bg-surface-variant/40"@
        }),
{
    if str_eq(color, "primary") {
        "bg-primary/15"
    } else if str_eq(color, "secondary") {
        "bg-secondary/15"
    } else if str_eq(color, "tertiary") {
        "bg-tertiary/15"
    } else {
        "bg-surface-variant/40"
    }
}

/// A uniformly drawn index below `bound` (`thread_rng().gen_range(0..bound)`).
/// Trusted: rand 0.8 documents that `gen_range` returns a value in the
/// range and panics on an empty one, which `requires` excludes.
#[verifier::external_body]
fn random_below(bound: usize) -> (r: usize)
    requires
        bound > 0,
    ensures
        r < bound,
{
    rand::thread_rng().gen_range(0..bound)
}

/// The donor names a test alert is signed with.
pub open spec fn test_donor_names() -> Seq<Seq<char>> {
    seq![
        "DragonSlayer99"@,
        "MoonWatcher"@,
        "PixelKnight"@,
        "StardustGamer"@,
        "NightOwl_42"@,
        "CrypticFox"@,
        "SilverArrow"@,
        "ThunderBolt"@,
        "CosmicRaider"@,
        "NeonPhoenix"@,
        "IronWolf"@,
        "QuantumByte"@,
    ]
}

/// The amounts, in whole dollars, a test alert may carry.
pub open spec fn test_amounts() -> Seq<u32> {
    seq![1u32, 2u32, 5u32, 10u32, 20u32, 50u32, 100u32]
}

/// The messages a test alert may carry.
pub open spec fn test_messages() -> Seq<Seq<char>> {
    seq![
        "Keep up the great content!"@,
        "Love watching your streams!"@,
        "You're the best streamer out there!"@,
        "GG ez, but seriously great game!"@,
        "Pog! That was insane!"@,
        "First time donating, won't be the last!"@,
        "Your community is amazing ❤️"@,
        "This stream made my day!"@,
    ]
}

fn test_donor_name(i: usize) -> (s: &'static str)
    requires
        i < 12,
    ensures
        s@ == test_donor_names()[i as int],
{
    if i == 0 {
        "DragonSlayer99"
    } else if i == 1 {
        "MoonWatcher"
    } else if i == 2 {
        "PixelKnight"
    } else if i == 3 {
        "StardustGamer"
    } else if i == 4 {
        "NightOwl_42"
    } else if i == 5 {
        "CrypticFox"
    } else if i == 6 {
        "SilverArrow"
    } else if i == 7 {
        "ThunderBolt"
    } else if i == 8 {
        "CosmicRaider"
    } else if i == 9 {
        "NeonPhoenix"
    } else if i == 10 {
        "IronWolf"
    } else {
        "QuantumByte"
    }
}

fn test_amount(i: usize) -> (a: u32)
    requires
        i < 7,
    ensures
        a == test_amounts()[i as int],
{
    if i == 0 {
        1
    } else if i == 1 {
        2
    } else if i == 2 {
        5
    } else if i == 3 {
        10
    } else if i == 4 {
        20
    } else if i == 5 {
        50
    } else {
        100
    }
}

fn test_message(i: usize) -> (s: &'static str)
    requires
        i < 8,
    ensures
        s@ == test_messages()[i as int],
{
    if i == 0 {
        "Keep up the great content!"
    } else if i == 1 {
        "Love watching your streams!"
    } else if i == 2 {
        "You're the best streamer out there!"
    } else if i == 3 {
        "GG ez, but seriously great game!"
    } else if i == 4 {
        "Pog! That was insane!"
    } else if i == 5 {
        "First time donating, won't be the last!"
    } else if i == 6 {
        "Your community is amazing ❤️"
    } else {
        "This stream made my day!"
    }
}

/// A test alert sent from the dashboard: a random donor, amount and
/// message, recorded under the payment method text `test_mock`.
#[derive(Clone, Debug, PartialEq)]
pub struct TestDonation {
    pub donor_name: String,
    pub amount_dollars: u32,
    pub message: String,
    pub payment_method: String,
}

/// How many donor names, amounts and messages a test alert chooses from.
pub const TEST_DONOR_NAME_COUNT: usize = 12;
pub const TEST_AMOUNT_COUNT: usize = 7;
pub const TEST_MESSAGE_COUNT: usize = 8;

/// The choice counts are the lengths of the lists.
pub proof fn lemma_test_choice_counts()
    ensures
        test_donor_names().len() == TEST_DONOR_NAME_COUNT,
        test_amounts().len() == TEST_AMOUNT_COUNT,
        test_messages().len() == TEST_MESSAGE_COUNT,
{
}

/// The test donation made of the donor name, amount and message at the
/// given positions of their lists.
pub fn test_donation(name_index: usize, amount_index: usize, message_index: usize) -> (d:
    TestDonation)
    requires
        name_index < TEST_DONOR_NAME_COUNT,
        amount_index < TEST_AMOUNT_COUNT,
        message_index < TEST_MESSAGE_COUNT,
    ensures
        d.donor_name@ == test_donor_names()[name_index as int],
        d.amount_dollars == test_amounts()[amount_index as int],
        d.message@ == test_messages()[message_index as int],
        d.payment_method@ == "test_mock"@,
{
    let donor_name = owned(test_donor_name(name_index));
    let amount_dollars: u32 = test_amount(amount_index);
    let message = owned(test_message(message_index));
    TestDonation { donor_name, amount_dollars, message, payment_method: owned("test_mock") }
}

/// Draws a test donation: a position in each list, drawn uniformly over
/// the list's length, picks each field.
pub fn random_test_donation() -> (d: TestDonation)
    ensures
        test_donor_names().contains(d.donor_name@),
        test_amounts().contains(d.amount_dollars),
        test_messages().contains(d.message@),
        d.payment_method@ == "test_mock"@,
{
    let i: usize = random_below(TEST_DONOR_NAME_COUNT);
    let j: usize = random_below(TEST_AMOUNT_COUNT);
    let k: usize = random_below(TEST_MESSAGE_COUNT);
    let d = test_donation(i, j, k);
    assert(test_donor_names()[i as int] == d.donor_name@);
    assert(test_amounts()[j as int] == d.amount_dollars);
    assert(test_messages()[k as int] == d.message@);
    d
}

} // verus!
