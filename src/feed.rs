//! The Feed Assembler, and the pipeline from raw markup to a feed message.
use vstd::prelude::*;
use vstd::string::StringExecFns;
use crate::extract::{block_record, extract_station_records, record_view, station_blocks, StationRecord};
use crate::normalize::{normalize_alert_text, normalized};
use crate::routes::{informed_scopes, scope_view, scopes_for, ReferenceData, Scope};
use crate::text::{decimal, decimal_string};

verus! {

/// The prefix of every entity identifier; the block's index follows it.
pub const ENTITY_ID_PREFIX: &'static str = "path_alert_";

/// The protocol version that the feed header carries.
pub const FEED_PROTOCOL_VERSION: &'static str = "2.0";

/// The feed revision that the feed header carries.
pub const FEED_REVISION: &'static str = "1.0";

/// One alert of the feed. Its active period starts at `start` and has no end;
/// its cause and effect are unknown; its description is in English.
pub struct AlertEntity {
    pub id: String,
    pub start: u64,
    pub informed: Vec<Scope>,
    pub description: String,
}

/// The header of a feed message.
pub struct FeedHeader {
    pub version: String,
    /// Each message replaces all earlier alert state; it is never incremental.
    pub full_dataset: bool,
    pub timestamp: u64,
    pub feed_version: String,
}

/// A feed of alerts.
pub struct FeedMessage {
    pub header: FeedHeader,
    pub entities: Vec<AlertEntity>,
}

/// An alert entity over mathematical values.
pub struct EntityView {
    pub id: Seq<char>,
    pub start: u64,
    pub scopes: Seq<(Option<Seq<char>>, Option<Seq<char>>)>,
    pub description: Seq<char>,
}

pub open spec fn entity_view(e: AlertEntity) -> EntityView {
    EntityView {
        id: e.id@,
        start: e.start,
        scopes: e.informed@.map_values(|s: Scope| scope_view(s)),
        description: e.description@,
    }
}

/// The identifier of the entity built from the block at `index`.
pub open spec fn entity_id(index: int) -> Seq<char> {
    "path_alert_"@ + decimal(index as nat)
}

/// The entities built from the first `k` records: each record's text is
/// normalized, records left with no text are dropped, and the others become
/// entities in order.
pub open spec fn assembled(records: Seq<(int, u64, Seq<char>)>, data: ReferenceData, k: int) -> Seq<EntityView>
    decreases k,
{
    if k <= 0 {
        seq![]
    } else {
        let rest = assembled(records, data, k - 1);
        let rec = records[k - 1];
        let text = normalized(rec.2);
        if text.len() == 0 {
            rest
        } else {
            rest.push(EntityView { id: entity_id(rec.0), start: rec.1, scopes: scopes_for(text, data), description: text })
        }
    }
}

/// The records of the station blocks of the raw markup.
pub open spec fn block_records(content: Seq<char>, now: u64) -> Seq<(int, u64, Seq<char>)> {
    Seq::new(station_blocks(content).len(), |i: int| block_record(station_blocks(content)[i], i, now))
}

/// The entities of the feed built from the raw markup.
pub open spec fn feed_entities(content: Seq<char>, data: ReferenceData, now: u64) -> Seq<EntityView> {
    let records = block_records(content, now);
    assembled(records, data, records.len() as int)
}

proof fn lemma_assembled_shape(records: Seq<(int, u64, Seq<char>)>, data: ReferenceData, k: int)
    requires
        0 <= k <= records.len(),
    ensures
        assembled(records, data, k).len() <= k,
        forall|e: int| 0 <= e < assembled(records, data, k).len() ==> {
            &&& (#[trigger] assembled(records, data, k)[e]).description.len() > 0
            &&& exists|j: int| 0 <= j < k && assembled(records, data, k)[e].id == entity_id(#[trigger] records[j].0)
        },
    decreases k,
{
    if k > 0 {
        lemma_assembled_shape(records, data, k - 1);
        let rest = assembled(records, data, k - 1);
        let all = assembled(records, data, k);
        assert forall|e: int| 0 <= e < all.len() implies {
            &&& (#[trigger] all[e]).description.len() > 0
            &&& exists|j: int| 0 <= j < k && all[e].id == entity_id(#[trigger] records[j].0)
        } by {
            if e < rest.len() {
                assert(all[e] == rest[e]);
                let j = choose|j: int| 0 <= j < k - 1 && rest[e].id == entity_id(#[trigger] records[j].0);
                assert(all[e].id == entity_id(records[j].0));
            } else {
                assert(all[e].id == entity_id(records[k - 1].0));
            }
        }
    }
}

/// No more entities come out than station blocks went in; every entity's
/// identifier is the prefix followed by the index of a block of the markup;
/// and no entity has an empty description, so a block whose cleaned text is
/// empty gives none.
pub proof fn lemma_feed_entities_from_blocks(content: Seq<char>, data: ReferenceData, now: u64)
    ensures
        feed_entities(content, data, now).len() <= station_blocks(content).len(),
        forall|e: int| 0 <= e < feed_entities(content, data, now).len() ==> {
            &&& (#[trigger] feed_entities(content, data, now)[e]).description.len() > 0
            &&& exists|j: int| 0 <= j < station_blocks(content).len()
                && feed_entities(content, data, now)[e].id == #[trigger] entity_id(j)
        },
{
    let records = block_records(content, now);
    let all = feed_entities(content, data, now);
    lemma_assembled_shape(records, data, records.len() as int);
    assert forall|e: int| 0 <= e < all.len() implies {
        &&& (#[trigger] all[e]).description.len() > 0
        &&& exists|j: int| 0 <= j < station_blocks(content).len() && all[e].id == #[trigger] entity_id(j)
    } by {
        let j = choose|j: int| 0 <= j < records.len() && all[e].id == entity_id(#[trigger] records[j].0);
        assert(records[j].0 == j);
        assert(all[e].id == entity_id(j));
    }
}

fn entity_id_exec(index: usize) -> (r: String)
    ensures
        r@ == entity_id(index as int),
{
    proof {
        reveal_strlit("path_alert_");
    }
    let mut id = String::from_str(ENTITY_ID_PREFIX);
    let digits = decimal_string(index);
    id.append(digits.as_str());
    id
}

/// Builds the entities of the records, in order: each record's text is
/// normalized, a record left with no text is dropped, and each other one
/// becomes an entity identified by its block index, starting at its
/// timestamp, scoped to the routes its text names (or the whole agency).
pub fn assemble_entities(records: &Vec<StationRecord>, data: &ReferenceData) -> (r: Vec<AlertEntity>)
    ensures
        r@.map_values(|e: AlertEntity| entity_view(e))
            == assembled(records@.map_values(|x: StationRecord| record_view(x)), *data, records@.len() as int),
{
    let ghost rv = records@.map_values(|x: StationRecord| record_view(x));
    let mut entities: Vec<AlertEntity> = Vec::new();
    let mut i: usize = 0;
    while i < records.len()
        invariant
            i <= records@.len(),
            rv == records@.map_values(|x: StationRecord| record_view(x)),
            entities@.map_values(|e: AlertEntity| entity_view(e)) == assembled(rv, *data, i as int),
        decreases records@.len() - i,
    {
        let rec = &records[i];
        assert(record_view(records@[i as int]) == rv[i as int]);
        let text = normalize_alert_text(rec.text.as_str());
        if !text.as_str().is_empty() {
            let id = entity_id_exec(rec.index);
            let informed = informed_scopes(text.as_str(), data);
            let ghost prev = entities@;
            entities.push(AlertEntity { id, start: rec.timestamp, informed, description: text });
            assert(entities@.map_values(|e: AlertEntity| entity_view(e))
                =~= prev.map_values(|e: AlertEntity| entity_view(e)).push(entity_view(entities@[prev.len() as int])));
        }
        i = i + 1;
    }
    entities
}

/// Builds the feed header: protocol version, full-dataset mode, the given
/// generation time and the feed revision.
pub fn feed_header(now: u64) -> (r: FeedHeader)
    ensures
        r.version@ == "2.0"@,
        r.full_dataset,
        r.timestamp == now,
        r.feed_version@ == "1.0"@,
{
    proof {
        reveal_strlit("2.0");
        reveal_strlit("1.0");
    }
    FeedHeader {
        version: String::from_str(FEED_PROTOCOL_VERSION),
        full_dataset: true,
        timestamp: now,
        feed_version: String::from_str(FEED_REVISION),
    }
}

/// Parses an alert bulletin's raw markup into a feed message. `now` is the
/// time at which the pipeline started: it stamps the header and stands in for
/// every posted time that does not parse. One entity comes from each station
/// block whose cleaned text is not empty, in document order.
pub fn parse_path_alerts(content: &str, reference: &ReferenceData, now: u64) -> (r: FeedMessage)
    ensures
        r.header.version@ == "2.0"@,
        r.header.full_dataset,
        r.header.timestamp == now,
        r.header.feed_version@ == "1.0"@,
        r.entities@.map_values(|e: AlertEntity| entity_view(e)) == feed_entities(content@, *reference, now),
        r.entities@.len() <= station_blocks(content@).len(),
        forall|e: int| 0 <= e < r.entities@.len() ==> (#[trigger] r.entities@[e]).description@.len() > 0,
        forall|e: int| 0 <= e < r.entities@.len() ==> exists|j: int|
            0 <= j < station_blocks(content@).len() && (#[trigger] r.entities@[e]).id@ == entity_id(j),
{
    let records = extract_station_records(content, now);
    proof {
        assert(records@.map_values(|x: StationRecord| record_view(x)) =~= block_records(content@, now));
    }
    let entities = assemble_entities(&records, reference);
    proof {
        lemma_feed_entities_from_blocks(content@, *reference, now);
        let ev = entities@.map_values(|e: AlertEntity| entity_view(e));
        assert(ev.len() == entities@.len());
        assert forall|e: int| 0 <= e < entities@.len() implies (#[trigger] entities@[e]).description@.len() > 0
            && exists|j: int| 0 <= j < station_blocks(content@).len() && entities@[e].id@ == entity_id(j) by {
            assert(ev[e] == entity_view(entities@[e]));
        }
    }
    FeedMessage { header: feed_header(now), entities }
}

} // verus!
