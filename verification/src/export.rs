//! The export of the answers to an invitation: comma-separated text, one
//! header line, then one line per answer in the order given. Nothing is
//! quoted or escaped.

use crate::decimal::{decimal, to_decimal};
use crate::protocol::{rsvp_views, RsvpView, RSVP};
use vstd::prelude::*;
use vstd::string::*;

verus! {

/// The header line.
pub open spec fn header() -> Seq<char> {
    "user_id,unix\n"@
}

/// The line of one answer.
pub open spec fn line(row: RsvpView) -> Seq<char> {
    row.user_id + seq![','] + decimal(row.unix) + seq!['\n']
}

/// The export of `rows`: the header, then the line of each row.
pub open spec fn csv(rows: Seq<RsvpView>) -> Seq<char>
    decreases rows.len(),
{
    if rows.len() == 0 {
        header()
    } else {
        csv(rows.drop_last()) + line(rows.last())
    }
}

/// The name of the file that holds the export for a message.
pub open spec fn file_name(msg_id: Seq<char>) -> Seq<char> {
    "rsvps-"@ + msg_id + ".csv"@
}

/// Writes the export of `rsvps`.
pub fn render_csv(rsvps: &Vec<RSVP>) -> (r: String)
    ensures
        r@ == csv(rsvp_views(rsvps@)),
{
    proof {
        reveal_strlit(",");
        reveal_strlit("\n");
    }
    let ghost rows = rsvp_views(rsvps@);
    let mut out = String::from_str("user_id,unix\n");
    let n = rsvps.len();
    let mut i: usize = 0;
    while i < n
        invariant
            i <= n,
            n == rsvps.len(),
            rows == rsvp_views(rsvps@),
            ","@ == seq![','],
            "\n"@ == seq!['\n'],
            out@ == csv(rows.take(i as int)),
        decreases n - i,
    {
        let rsvp = &rsvps[i];
        out.append(rsvp.user_id.as_str());
        out.append(",");
        let unix = to_decimal(rsvp.unix);
        out.append(unix.as_str());
        out.append("\n");
        assert(rows.take(i + 1).drop_last() =~= rows.take(i as int));
        i += 1;
    }
    assert(rows.take(n as int) =~= rows);
    out
}

/// Names the file that holds the export for a message.
pub fn attachment_name(msg_id: &str) -> (r: String)
    ensures
        r@ == file_name(msg_id@),
{
    let mut out = String::from_str("rsvps-");
    out.append(msg_id);
    out.append(".csv");
    out
}

/// Without answers the export is the header line and nothing else.
pub proof fn lemma_csv_of_none()
    ensures
        csv(Seq::<RsvpView>::empty()) == header(),
{
}

/// One more answer adds its line at the end and changes nothing before it.
pub proof fn lemma_csv_appends(rows: Seq<RsvpView>, row: RsvpView)
    ensures
        csv(rows.push(row)) == csv(rows) + line(row),
{
    assert(rows.push(row).drop_last() =~= rows);
}

} // verus!
