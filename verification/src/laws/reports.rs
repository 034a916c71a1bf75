//! Laws of the daily report, and of the clipboard's change count.

use vstd::prelude::*;

use crate::analytics::{analytics_on, init_analytics, AnalyticsPlan, AnonymousId};
use crate::settings_store::{SettingWrite, Stored, StoredView};
use crate::text::trimmed;
use crate::win_clipboard::{get_clipboard_sequence_number, ClipboardSequence};

verus! {

/// Whether `id` is the identifier to use: the stored one in its normal form where there
/// is one, else the one made for this machine.
pub open spec fn identifies(anon: AnonymousId, id: Seq<char>) -> bool {
    if anon.stored@ is Value && anon.normalized is Some {
        id == anon.normalized->0@
    } else {
        id == anon.built@
    }
}

/// Whether a value is among those to store.
pub open spec fn stores(writes: Seq<SettingWrite>, key: Seq<char>, value: Seq<char>) -> bool {
    exists|i: int|
        0 <= i < writes.len() && #[trigger] writes[i].key@ == key && writes[i].value@ == value
}

/// A report is sent exactly where none was sent on the day. It goes to the given address
/// and names the version and the identifier.
pub proof fn law_report_is_sent_once_a_day(
    anon: AnonymousId,
    last_ping: Stored,
    today: &str,
    base: &str,
    version: &str,
    id: Seq<char>,
    res: AnalyticsPlan,
)
    requires
        call_ensures(analytics_on, (&anon, &last_ping, today, base, version), res),
        identifies(anon, id),
    ensures
        res.ping is Some <==> !(last_ping@ == StoredView::Value(today@)),
        res.ping matches Some(address) ==> address@ == base@ + seq!['?', 'v', '='] + version@
            + seq!['&', 'i', 'd', '='] + id,
{
    reveal_strlit("?v=");
    reveal_strlit("&id=");
    assert("?v="@ =~= seq!['?', 'v', '=']);
    assert("&id="@ =~= seq!['&', 'i', 'd', '=']);
    assert(id == anon.id());
}

/// The day is stored exactly with a report, and the identifier exactly where what is stored
/// is not that identifier already; nothing else is stored.
pub proof fn law_report_stores_the_day(
    anon: AnonymousId,
    last_ping: Stored,
    today: &str,
    base: &str,
    version: &str,
    id: Seq<char>,
    value: Seq<char>,
    key: Seq<char>,
    res: AnalyticsPlan,
)
    requires
        call_ensures(analytics_on, (&anon, &last_ping, today, base, version), res),
        identifies(anon, id),
    ensures
        stores(res.writes@, "app.last_ping_date"@, value) <==> res.ping is Some && value == today@,
        stores(res.writes@, "app.anon_id"@, value) <==> value == id && !(anon.stored@ is Value
            && trimmed(anon.stored@->Value_0) == id),
        stores(res.writes@, key, value) ==> key == "app.last_ping_date"@ || key == "app.anon_id"@,
        res.writes@.len() <= 2,
{
    reveal_strlit("app.last_ping_date");
    reveal_strlit("app.anon_id");
    assert("app.last_ping_date"@.len() != "app.anon_id"@.len());
    let views = crate::settings_store::write_views(res.writes@);
    assert(id == anon.id());
    assert(views.len() == res.writes@.len());
    assert forall|i: int| 0 <= i < views.len() implies #[trigger] res.writes@[i]@ == views[i] by {}
    let ids = anon.id_writes();
    if ids.len() > 0 {
        assert(views[0] == ids[0]);
        assert(res.writes@[0]@ == views[0]);
        assert(res.writes@[0].key@ == "app.anon_id"@);
    }
    if res.ping is Some {
        let last = views.len() - 1;
        assert(res.writes@[last]@ == views[last]);
        assert(res.writes@[last].key@ == "app.last_ping_date"@);
    }
}

/// The report of the present day has the same identifier, wherever it is due.
pub proof fn law_present_report_names_the_identifier(
    anon: AnonymousId,
    last_ping: Stored,
    base: &str,
    version: &str,
    id: Seq<char>,
    res: AnalyticsPlan,
)
    requires
        call_ensures(init_analytics, (&anon, &last_ping, base, version), res),
        identifies(anon, id),
    ensures
        !(last_ping@ is Value) ==> res.ping is Some,
        res.ping matches Some(address) ==> address@ == base@ + seq!['?', 'v', '='] + version@
            + seq!['&', 'i', 'd', '='] + id,
{
    reveal_strlit("?v=");
    reveal_strlit("&id=");
    assert("?v="@ =~= seq!['?', 'v', '=']);
    assert("&id="@ =~= seq!['&', 'i', 'd', '=']);
    assert(id == anon.id());
}

/// Numbers that are handed out one after the other count up from one, and the largest is
/// followed by zero.
pub proof fn law_change_count_goes_up(
    sequence: &mut ClipboardSequence,
    again: &mut ClipboardSequence,
    fresh: ClipboardSequence,
    first: u32,
    second: u32,
)
    requires
        call_ensures(get_clipboard_sequence_number, (sequence,), first),
        call_ensures(get_clipboard_sequence_number, (again,), second),
        *again == *final(sequence),
        call_ensures(ClipboardSequence::new, (), fresh),
    ensures
        first < u32::MAX ==> second == first + 1,
        first == u32::MAX ==> second == 0,
        *old(sequence) == fresh ==> first == 1,
{
}

} // verus!
