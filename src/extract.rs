//! The Station Block Extractor: one record per station block of the bulletin.
use vstd::prelude::*;
use crate::text::{replace_str, replaced, trim_of, trim_str};
use crate::timestamp::{resolve_timestamp, resolved_time};

verus! {

/// Marks a station block.
pub const STATION_SELECTOR: &'static str = "div.station";

/// Marks the date and time labels within a station block.
pub const LABEL_SELECTOR: &'static str = "div.stationName table tr td strong span";

/// Marks the alert text within a station block.
pub const TEXT_SELECTOR: &'static str = "span.alertText";

/// The text of the nodes of one station block, as the markup holds them:
/// its date/time labels and its alert texts, each in document order.
pub struct StationNodes {
    pub labels: Vec<String>,
    pub texts: Vec<String>,
}

/// A station block's label texts and alert texts.
pub open spec fn nodes_view(n: StationNodes) -> (Seq<Seq<char>>, Seq<Seq<char>>) {
    (n.labels@.map_values(|s: String| s@), n.texts@.map_values(|s: String| s@))
}

/// What scraper selects from a parsed HTML document: for each node matching
/// `STATION_SELECTOR`, in document order, the text of each node within it
/// matching `LABEL_SELECTOR` and of each matching `TEXT_SELECTOR`.
pub uninterp spec fn station_nodes_of(html: Seq<char>) -> Seq<(Seq<Seq<char>>, Seq<Seq<char>>)>;

/// Relies on scraper's `Html::parse_document`, `Selector::parse`,
/// `Html::select`, `ElementRef::select` and `ElementRef::text`: the station
/// blocks of the document and the concatenated text of their labelled nodes.
/// The selectors are valid constants, so they parse.
#[verifier::external_body]
fn select_station_nodes(html: &str) -> (r: Vec<StationNodes>)
    ensures
        r@.map_values(|n: StationNodes| nodes_view(n)) == station_nodes_of(html@),
{
    let doc = scraper::Html::parse_document(html);
    let (Ok(station), Ok(label), Ok(text)) = (
        scraper::Selector::parse(STATION_SELECTOR),
        scraper::Selector::parse(LABEL_SELECTOR),
        scraper::Selector::parse(TEXT_SELECTOR),
    ) else {
        return Vec::new();
    };
    doc.select(&station).map(|e| StationNodes {
        labels: e.select(&label).map(|n| n.text().collect()).collect(),
        texts: e.select(&text).map(|n| n.text().collect()).collect(),
    }).collect()
}

/// A station block's alert record before its text is cleaned.
pub struct StationRecord {
    /// The block's zero-based position in document order.
    pub index: usize,
    /// Seconds since the epoch at which the alert was posted.
    pub timestamp: u64,
    pub text: String,
}

/// A record as (index, timestamp, text).
pub open spec fn record_view(r: StationRecord) -> (int, u64, Seq<char>) {
    (r.index as int, r.timestamp, r.text@)
}

/// The trimmed text of the `i`-th node, or the empty text where there is none.
pub open spec fn node_text(nodes: Seq<Seq<char>>, i: int) -> Seq<char> {
    if 0 <= i < nodes.len() {
        trim_of(nodes[i])
    } else {
        seq![]
    }
}

/// The station blocks of the raw markup, after the stray entity fragment
/// "&quot" has been turned into a quote throughout.
pub open spec fn station_blocks(content: Seq<char>) -> Seq<(Seq<Seq<char>>, Seq<Seq<char>>)> {
    station_nodes_of(replaced(content, "&quot"@, "\""@))
}

/// The record of the `i`-th block: the first label is the date, the second
/// the time, the first alert text is the text.
pub open spec fn block_record(block: (Seq<Seq<char>>, Seq<Seq<char>>), i: int, now: u64) -> (int, u64, Seq<char>) {
    (i, resolved_time(node_text(block.0, 0), node_text(block.0, 1), now), node_text(block.1, 0))
}

fn node_text_exec(nodes: &Vec<String>, i: usize) -> (r: String)
    ensures
        r@ == node_text(nodes@.map_values(|s: String| s@), i as int),
{
    if i < nodes.len() {
        trim_str(nodes[i].as_str())
    } else {
        String::new()
    }
}

/// Extracts one record per station block, in document order, whether or not
/// its fields were found. Missing labels or text give empty strings; a date
/// and time that do not parse give `now`.
pub fn extract_station_records(content: &str, now: u64) -> (r: Vec<StationRecord>)
    ensures
        r@.len() == station_blocks(content@).len(),
        forall|i: int| 0 <= i < r@.len() ==> record_view(#[trigger] r@[i])
            == block_record(station_blocks(content@)[i], i, now),
{
    proof {
        reveal_strlit("&quot");
        reveal_strlit("\"");
    }
    let clean = replace_str(content, "&quot", "\"");
    let blocks = select_station_nodes(clean.as_str());
    let ghost bv = station_blocks(content@);
    assert(blocks@.len() == bv.len()) by {
        assert(blocks@.map_values(|n: StationNodes| nodes_view(n)).len() == blocks@.len());
    }
    let mut records: Vec<StationRecord> = Vec::new();
    let mut i: usize = 0;
    while i < blocks.len()
        invariant
            i <= blocks@.len(),
            blocks@.len() == bv.len(),
            blocks@.map_values(|n: StationNodes| nodes_view(n)) == bv,
            records@.len() == i,
            forall|k: int| 0 <= k < i ==> record_view(#[trigger] records@[k]) == block_record(bv[k], k, now),
        decreases blocks@.len() - i,
    {
        let block = &blocks[i];
        assert(nodes_view(blocks@[i as int]) == bv[i as int]);
        let date = node_text_exec(&block.labels, 0);
        let time = node_text_exec(&block.labels, 1);
        let text = node_text_exec(&block.texts, 0);
        let timestamp = resolve_timestamp(date.as_str(), time.as_str(), now);
        records.push(StationRecord { index: i, timestamp, text });
        i = i + 1;
    }
    records
}

} // verus!
