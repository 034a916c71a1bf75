//! The anonymous report that the shell is in use, sent at most once a day.

use vstd::prelude::*;

use crate::decimal::decimal;
use crate::settings_store::{
    after_writes, lemma_after_writes_concat, write_of, write_views, SettingWrite, Stored, StoredView,
    WriteView,
};
use crate::startup::text_view;
use crate::text::{same_text, trim, trimmed};

verus! {

/// A number below a hundred in two digits.
pub open spec fn two_digits(n: nat) -> Seq<char> {
    if n < 10 {
        "0"@ + decimal(n)
    } else {
        decimal(n)
    }
}

/// A year from the Unix epoch on; one of more than four digits has a plus sign.
pub open spec fn year_text(year: nat) -> Seq<char> {
    if year <= 9999 {
        decimal(year)
    } else {
        "+"@ + decimal(year)
    }
}

/// The text of a date: year, month and day with hyphens between.
pub open spec fn date_text(year: nat, month: nat, day: nat) -> Seq<char> {
    year_text(year) + "-"@ + two_digits(month) + "-"@ + two_digits(day)
}

/// Whether a text is a date from the Unix epoch on.
pub open spec fn is_date(text: Seq<char>) -> bool {
    exists|year: nat, month: nat, day: nat|
        1970 <= year && 1 <= month <= 12 && 1 <= day <= 31 && text == #[trigger] date_text(
            year,
            month,
            day,
        )
}

/// The date in UTC, by `chrono::Utc::now` and `DateTime::format`.
///
/// Claimed: it is a date in the form of year, month and day. Which one is left open, and
/// where the clock stands before the Unix epoch or beyond the last date that `chrono`
/// has, `chrono::Utc::now` does not return.
#[verifier::external_body]
fn utc_today() -> (res: String)
    ensures
        is_date(res@),
{
    chrono::Utc::now().format("%Y-%m-%d").to_string()
}

/// What is known of the anonymous identifier.
#[derive(Debug)]
pub struct AnonymousId {
    /// What is stored.
    pub stored: Stored,
    /// The stored value in its normal form, if it has one.
    pub normalized: Option<String>,
    /// The value made for this machine.
    pub built: String,
}

impl AnonymousId {
    /// The identifier to use: the stored one where it is in order.
    pub open spec fn id(self) -> Seq<char> {
        match (self.stored@, self.normalized) {
            (StoredView::Value(_), Some(id)) => id@,
            _ => self.built@,
        }
    }

    /// The write of the identifier, where the stored value is another.
    pub open spec fn id_writes(self) -> Seq<WriteView> {
        match self.stored@ {
            StoredView::Value(text) if trimmed(text) == self.id() => seq![],
            _ => seq![WriteView { key: "app.anon_id"@, value: self.id() }],
        }
    }
}

/// Whether a report is due: the last one was not today.
pub open spec fn ping_due(last_ping: StoredView, today: Seq<char>) -> bool {
    last_ping != StoredView::Value(today)
}

/// The values to store.
pub open spec fn analytics_writes(
    anon: AnonymousId,
    last_ping: StoredView,
    today: Seq<char>,
) -> Seq<WriteView> {
    anon.id_writes() + if ping_due(last_ping, today) {
        seq![WriteView { key: "app.last_ping_date"@, value: today }]
    } else {
        seq![]
    }
}

/// The address of the report, if one is due.
pub open spec fn ping_address(
    anon: AnonymousId,
    last_ping: StoredView,
    today: Seq<char>,
    base: Seq<char>,
    version: Seq<char>,
) -> Option<Seq<char>> {
    if ping_due(last_ping, today) {
        Some(base + "?v="@ + version + "&id="@ + anon.id())
    } else {
        None
    }
}

/// What is to be done about the report.
#[derive(Debug)]
pub struct AnalyticsPlan {
    pub writes: Vec<SettingWrite>,
    /// The address to request, if a report is due.
    pub ping: Option<String>,
}

impl AnalyticsPlan {
    /// Whether this is the plan for a day.
    pub open spec fn is_for(
        self,
        anon: AnonymousId,
        last_ping: StoredView,
        today: Seq<char>,
        base: Seq<char>,
        version: Seq<char>,
    ) -> bool {
        &&& write_views(self.writes@) == analytics_writes(anon, last_ping, today)
        &&& text_view(self.ping) == ping_address(anon, last_ping, today, base, version)
    }
}

/// The plan for the day `today`. The report goes to `base` and names the version.
pub fn analytics_on(
    anon: &AnonymousId,
    last_ping: &Stored,
    today: &str,
    base: &str,
    version: &str,
) -> (res: AnalyticsPlan)
    ensures
        res.is_for(*anon, last_ping@, today@, base@, version@),
{
    let id: String = match &anon.stored {
        Stored::Value(_) => match &anon.normalized {
            Some(id) => id.clone(),
            None => anon.built.clone(),
        },
        _ => anon.built.clone(),
    };
    assert(id@ == anon.id());
    let settled = match &anon.stored {
        Stored::Value(text) => same_text(trim(text.as_str()).as_str(), id.as_str()),
        _ => false,
    };
    let mut writes: Vec<SettingWrite> = Vec::new();
    if !settled {
        let write = write_of("app.anon_id", id.as_str());
        writes.push(write);
        assert(write_views(writes@) == seq![write@]);
    } else {
        assert(write_views(writes@) == Seq::<WriteView>::empty());
    }
    let ghost first = writes@;
    let up_to_date = match last_ping {
        Stored::Value(date) => same_text(date.as_str(), today),
        _ => false,
    };
    if up_to_date {
        assert(write_views(writes@) == write_views(first) + Seq::<WriteView>::empty());
        return AnalyticsPlan { writes, ping: None };
    }
    let write = write_of("app.last_ping_date", today);
    writes.push(write);
    assert(write_views(writes@) == write_views(first) + seq![write@]);
    let mut address = base.to_string();
    address.append("?v=");
    address.append(version);
    address.append("&id=");
    address.append(id.as_str());
    AnalyticsPlan { writes, ping: Some(address) }
}

/// The plan for the present day.
pub fn init_analytics(anon: &AnonymousId, last_ping: &Stored, base: &str, version: &str) -> (res:
    AnalyticsPlan)
    ensures
        exists|today: Seq<char>|
            is_date(today) && #[trigger] res.is_for(*anon, last_ping@, today, base@, version@),
{
    let today = utc_today();
    let plan = analytics_on(anon, last_ping, today.as_str(), base, version);
    assert(plan.is_for(*anon, last_ping@, today@, base@, version@));
    plan
}

/// Once the values of a day are stored, no other report is due on that day.
pub proof fn lemma_one_report_a_day(
    anon: AnonymousId,
    last_ping: StoredView,
    today: Seq<char>,
)
    ensures
        !ping_due(
            after_writes(last_ping, analytics_writes(anon, last_ping, today), "app.last_ping_date"@),
            today,
        ),
{
    let key = "app.last_ping_date"@;
    reveal_strlit("app.last_ping_date");
    reveal_strlit("app.anon_id");
    assert("app.last_ping_date"@.len() != "app.anon_id"@.len());
    let date = WriteView { key, value: today };
    let ids = anon.id_writes();
    lemma_after_writes_concat(last_ping, ids, seq![date], key);
    lemma_after_writes_concat(last_ping, ids, seq![], key);
    if ids.len() > 0 {
        assert(ids.drop_last() == Seq::<WriteView>::empty());
        assert(after_writes(last_ping, ids.drop_last(), key) == last_ping);
    }
    assert(after_writes(last_ping, ids, key) == last_ping);
}

/// An identifier that is stored in its normal form stays as it is.
pub proof fn lemma_settled_id_is_kept(anon: AnonymousId, text: Seq<char>)
    requires
        anon.stored@ == StoredView::Value(text),
        text_view(anon.normalized) == Some(trimmed(text)),
    ensures
        anon.id() == trimmed(text),
        anon.id_writes() == Seq::<WriteView>::empty(),
{
}

} // verus!
