//! The Route Resolver: route abbreviations named in alert text, mapped to
//! route identifiers of the reference data.
use vstd::prelude::*;
use vstd::string::StringExecFns;
use crate::text::{contains_str, occurs_in};

verus! {

/// A route of the reference data.
pub struct RouteRef {
    pub id: String,
    pub long_name: Option<String>,
}

/// An agency of the reference data.
pub struct AgencyRef {
    pub id: Option<String>,
}

/// The reference data consulted to scope alerts: its routes and agencies.
/// Empty data scopes every alert to the whole agency.
pub struct ReferenceData {
    pub routes: Vec<RouteRef>,
    pub agencies: Vec<AgencyRef>,
}

/// Where an alert applies: an agency, and a route of it or none (the whole
/// agency).
pub struct Scope {
    pub agency_id: Option<String>,
    pub route_id: Option<String>,
}

/// The agency identifier used when the reference data gives none.
pub const FALLBACK_AGENCY: &'static str = "PATH";

/// The known route abbreviations and the long names they stand for, in the
/// order in which they are looked up.
pub open spec fn route_table() -> Seq<(Seq<char>, Seq<char>)> {
    seq![
        ("NWK-WTC"@, "Newark - World Trade Center"@),
        ("HOB-WTC"@, "Hoboken - World Trade Center"@),
        ("JSQ-33"@, "Journal Square - 33rd Street"@),
        ("HOB-33"@, "Hoboken - 33rd Street"@),
    ]
}

fn route_table_exec() -> (r: Vec<(&'static str, &'static str)>)
    ensures
        r@.len() == route_table().len(),
        forall|i: int| 0 <= i < r@.len() ==> (#[trigger] r@[i]).0@ == route_table()[i].0
            && r@[i].1@ == route_table()[i].1,
{
    proof {
        reveal_strlit("NWK-WTC");
        reveal_strlit("Newark - World Trade Center");
        reveal_strlit("HOB-WTC");
        reveal_strlit("Hoboken - World Trade Center");
        reveal_strlit("JSQ-33");
        reveal_strlit("Journal Square - 33rd Street");
        reveal_strlit("HOB-33");
        reveal_strlit("Hoboken - 33rd Street");
    }
    vec![
        ("NWK-WTC", "Newark - World Trade Center"),
        ("HOB-WTC", "Hoboken - World Trade Center"),
        ("JSQ-33", "Journal Square - 33rd Street"),
        ("HOB-33", "Hoboken - 33rd Street"),
    ]
}

/// The route has exactly the given long name.
pub open spec fn has_long_name(r: RouteRef, name: Seq<char>) -> bool {
    match r.long_name {
        Some(n) => n@ == name,
        None => false,
    }
}

/// The identifiers of the routes among the first `k` whose long name is
/// `name`, in order, duplicates kept.
pub open spec fn ids_named(routes: Seq<RouteRef>, name: Seq<char>, k: int) -> Seq<Seq<char>>
    decreases k,
{
    if k <= 0 {
        seq![]
    } else {
        let rest = ids_named(routes, name, k - 1);
        if has_long_name(routes[k - 1], name) {
            rest.push(routes[k - 1].id@)
        } else {
            rest
        }
    }
}

/// The route identifiers resolved from the first `k` table entries: for each
/// abbreviation found in `text`, every route with its long name.
pub open spec fn resolved_upto(text: Seq<char>, routes: Seq<RouteRef>, k: int) -> Seq<Seq<char>>
    decreases k,
{
    if k <= 0 {
        seq![]
    } else {
        let rest = resolved_upto(text, routes, k - 1);
        if occurs_in(text, route_table()[k - 1].0) {
            rest + ids_named(routes, route_table()[k - 1].1, routes.len() as int)
        } else {
            rest
        }
    }
}

/// The route identifiers that an alert text resolves to.
pub open spec fn resolved_routes(text: Seq<char>, routes: Seq<RouteRef>) -> Seq<Seq<char>> {
    resolved_upto(text, routes, route_table().len() as int)
}

fn ids_with_long_name(routes: &Vec<RouteRef>, name: &str, found: &mut Vec<String>)
    ensures
        final(found)@.map_values(|s: String| s@)
            == old(found)@.map_values(|s: String| s@) + ids_named(routes@, name@, routes@.len() as int),
{
    let ghost start = found@.map_values(|s: String| s@);
    let mut j: usize = 0;
    while j < routes.len()
        invariant
            j <= routes@.len(),
            found@.map_values(|s: String| s@) == start + ids_named(routes@, name@, j as int),
        decreases routes@.len() - j,
    {
        let route = &routes[j];
        let matches = match &route.long_name {
            Some(n) => {
                let wanted = String::from_str(name);
                *n == wanted
            },
            None => false,
        };
        if matches {
            let ghost prev = found@;
            found.push(route.id.clone());
            assert(has_long_name(routes@[j as int], name@));
            assert(found@.map_values(|s: String| s@) =~= prev.map_values(|s: String| s@).push(routes@[j as int].id@));
            assert(found@.map_values(|s: String| s@) =~= start + ids_named(routes@, name@, j + 1));
        } else {
            assert(found@.map_values(|s: String| s@) =~= start + ids_named(routes@, name@, j + 1));
        }
        j = j + 1;
    }
}

/// The identifiers of the reference routes named in `text`: for each known
/// abbreviation that occurs in it, in table order, every route whose long name
/// is the one the abbreviation stands for. Empty where none is found.
pub fn find_route_ids(text: &str, routes: &Vec<RouteRef>) -> (r: Vec<String>)
    ensures
        r@.map_values(|s: String| s@) == resolved_routes(text@, routes@),
{
    let table = route_table_exec();
    let mut found: Vec<String> = Vec::new();
    let mut k: usize = 0;
    while k < table.len()
        invariant
            k <= table@.len(),
            table@.len() == route_table().len(),
            forall|i: int| 0 <= i < table@.len() ==> (#[trigger] table@[i]).0@ == route_table()[i].0
                && table@[i].1@ == route_table()[i].1,
            found@.map_values(|s: String| s@) == resolved_upto(text@, routes@, k as int),
        decreases table@.len() - k,
    {
        let (abbr, long_name) = table[k];
        if contains_str(text, abbr) {
            ids_with_long_name(routes, long_name, &mut found);
        }
        k = k + 1;
    }
    found
}

/// The optional text of an optional string.
pub open spec fn opt_view(o: Option<String>) -> Option<Seq<char>> {
    match o {
        Some(s) => Some(s@),
        None => None,
    }
}

/// The scope as (agency, route).
pub open spec fn scope_view(s: Scope) -> (Option<Seq<char>>, Option<Seq<char>>) {
    (opt_view(s.agency_id), opt_view(s.route_id))
}

/// The default agency identifier: that of the first agency, or the fallback
/// where there is no agency or it has no identifier.
pub open spec fn default_agency(agencies: Seq<AgencyRef>) -> Seq<char> {
    if agencies.len() > 0 && agencies[0].id is Some {
        agencies[0].id.unwrap()@
    } else {
        "PATH"@
    }
}

/// The scopes of an alert text: one per resolved route, each with the default
/// agency, or a single agency-wide scope where no route is resolved.
pub open spec fn scopes_for(text: Seq<char>, data: ReferenceData) -> Seq<(Option<Seq<char>>, Option<Seq<char>>)> {
    let ids = resolved_routes(text, data.routes@);
    let agency = default_agency(data.agencies@);
    if ids.len() == 0 {
        seq![(Some(agency), None)]
    } else {
        ids.map_values(|id: Seq<char>| (Some(agency), Some(id)))
    }
}

/// The identifier of the agency that alerts are scoped to.
pub fn default_agency_id(agencies: &Vec<AgencyRef>) -> (r: String)
    ensures
        r@ == default_agency(agencies@),
{
    proof {
        reveal_strlit("PATH");
    }
    if agencies.len() > 0 {
        match &agencies[0].id {
            Some(id) => id.clone(),
            None => String::from_str(FALLBACK_AGENCY),
        }
    } else {
        String::from_str(FALLBACK_AGENCY)
    }
}

/// The scopes that an alert with this text informs: each resolved route with
/// the default agency, or the whole agency where no route is resolved.
pub fn informed_scopes(text: &str, data: &ReferenceData) -> (r: Vec<Scope>)
    ensures
        r@.map_values(|s: Scope| scope_view(s)) == scopes_for(text@, *data),
{
    let ids = find_route_ids(text, &data.routes);
    let agency = default_agency_id(&data.agencies);
    let ghost idv = ids@.map_values(|s: String| s@);
    let mut scopes: Vec<Scope> = Vec::new();
    if ids.len() == 0 {
        scopes.push(Scope { agency_id: Some(agency), route_id: None });
        assert(scopes@.map_values(|s: Scope| scope_view(s)) =~= scopes_for(text@, *data));
    } else {
        let mut i: usize = 0;
        while i < ids.len()
            invariant
                i <= ids@.len(),
                agency@ == default_agency(data.agencies@),
                idv == ids@.map_values(|s: String| s@),
                scopes@.map_values(|s: Scope| scope_view(s))
                    =~= idv.subrange(0, i as int).map_values(|id: Seq<char>| (Some(agency@), Some(id))),
            decreases ids@.len() - i,
        {
            let ghost prev = scopes@;
            scopes.push(Scope { agency_id: Some(agency.clone()), route_id: Some(ids[i].clone()) });
            assert(scopes@.map_values(|s: Scope| scope_view(s)) =~= prev.map_values(|s: Scope| scope_view(s)).push(
                (Some(agency@), Some(idv[i as int]))));
            assert(idv.subrange(0, i + 1) =~= idv.subrange(0, i as int).push(idv[i as int]));
            i = i + 1;
        }
        assert(idv.subrange(0, i as int) =~= idv);
    }
    scopes
}

proof fn lemma_ids_named_has(routes: Seq<RouteRef>, name: Seq<char>, k: int, j: int)
    requires
        0 <= j < k <= routes.len(),
        has_long_name(routes[j], name),
    ensures
        ids_named(routes, name, k).contains(routes[j].id@),
    decreases k,
{
    let rest = ids_named(routes, name, k - 1);
    if j < k - 1 {
        lemma_ids_named_has(routes, name, k - 1, j);
        let w = choose|w: int| 0 <= w < rest.len() && rest[w] == routes[j].id@;
        if has_long_name(routes[k - 1], name) {
            assert(rest.push(routes[k - 1].id@)[w] == routes[j].id@);
        }
    } else {
        assert(rest.push(routes[k - 1].id@)[rest.len() as int] == routes[j].id@);
    }
}

proof fn lemma_first_entry_prefix(text: Seq<char>, routes: Seq<RouteRef>, k: int)
    requires
        1 <= k <= route_table().len(),
    ensures
        resolved_upto(text, routes, 1).len() <= resolved_upto(text, routes, k).len(),
        resolved_upto(text, routes, k).subrange(0, resolved_upto(text, routes, 1).len() as int)
            == resolved_upto(text, routes, 1),
    decreases k,
{
    let first = resolved_upto(text, routes, 1);
    if k > 1 {
        lemma_first_entry_prefix(text, routes, k - 1);
        let rest = resolved_upto(text, routes, k - 1);
        assert(rest.subrange(0, first.len() as int) == first);
        if occurs_in(text, route_table()[k - 1].0) {
            let more = ids_named(routes, route_table()[k - 1].1, routes.len() as int);
            assert((rest + more).subrange(0, first.len() as int) =~= rest.subrange(0, first.len() as int));
        }
    } else {
        assert(first.subrange(0, first.len() as int) =~= first);
    }
}

/// A text naming "NWK-WTC" resolves first to the identifiers of exactly the
/// routes whose long name is "Newark - World Trade Center", in reference
/// order, so every such route is among the result. A text naming none of the
/// four known abbreviations resolves to no route, and so to one agency-wide
/// scope.
pub proof fn lemma_route_resolution(text: Seq<char>, data: ReferenceData)
    ensures
        occurs_in(text, "NWK-WTC"@) ==> {
            let wanted = ids_named(data.routes@, "Newark - World Trade Center"@, data.routes@.len() as int);
            &&& resolved_routes(text, data.routes@).subrange(0, wanted.len() as int) == wanted
            &&& forall|j: int| 0 <= j < data.routes@.len()
                && has_long_name(#[trigger] data.routes@[j], "Newark - World Trade Center"@)
                ==> resolved_routes(text, data.routes@).contains(data.routes@[j].id@)
        },
        (forall|k: int| 0 <= k < route_table().len() ==> !occurs_in(text, #[trigger] route_table()[k].0))
            ==> resolved_routes(text, data.routes@).len() == 0
            && scopes_for(text, data) == seq![(Some(default_agency(data.agencies@)), None::<Seq<char>>)],
{
    let routes = data.routes@;
    let name = "Newark - World Trade Center"@;
    let wanted = ids_named(routes, name, routes.len() as int);
    let all = resolved_routes(text, routes);
    if occurs_in(text, "NWK-WTC"@) {
        assert(route_table()[0].0 == "NWK-WTC"@);
        assert(resolved_upto(text, routes, 0) =~= seq![]);
        assert(resolved_upto(text, routes, 1) =~= wanted);
        lemma_first_entry_prefix(text, routes, 4);
        assert forall|j: int| 0 <= j < routes.len() && has_long_name(#[trigger] routes[j], name)
            implies all.contains(routes[j].id@) by {
            lemma_ids_named_has(routes, name, routes.len() as int, j);
            let w = choose|w: int| 0 <= w < wanted.len() && wanted[w] == routes[j].id@;
            assert(all.subrange(0, wanted.len() as int)[w] == all[w]);
        }
    }
    if forall|k: int| 0 <= k < route_table().len() ==> !occurs_in(text, #[trigger] route_table()[k].0) {
        assert(!occurs_in(text, route_table()[0].0));
        assert(!occurs_in(text, route_table()[1].0));
        assert(!occurs_in(text, route_table()[2].0));
        assert(!occurs_in(text, route_table()[3].0));
        assert(resolved_upto(text, routes, 0) =~= seq![]);
        assert(resolved_upto(text, routes, 1) =~= seq![]);
        assert(resolved_upto(text, routes, 2) =~= seq![]);
        assert(resolved_upto(text, routes, 3) =~= seq![]);
        assert(resolved_upto(text, routes, 4) =~= seq![]);
    }
}

} // verus!
