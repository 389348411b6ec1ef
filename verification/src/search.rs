//! Searching across the library, the radio services and the apps: which searches a scope
//! runs, how the answers are put together, and where an app keeps its search.
use vstd::prelude::*;
use crate::api::{Album, Artist, Playlist, RadioItem, Track};
use crate::app::{SearchResultItem, SearchScope};
use crate::filter::{spec_lowercase, spec_text_matches, text_matches, to_lowercase};
use crate::session::texts;
use crate::text::{str_eq, seq_contains, contains};

verus! {

/// The commands of the services that have one, in order.
pub open spec fn service_cmds(services: Seq<RadioItem>) -> Seq<Seq<char>>
    decreases services.len(),
{
    if services.len() == 0 {
        Seq::empty()
    } else {
        let rest = service_cmds(services.drop_last());
        match services.last().cmd {
            Some(c) => rest.push(c@),
            None => rest,
        }
    }
}

/// The searches of one query: the library's, and one per radio service and per app (by
/// command).
#[derive(Debug)]
pub struct SearchPlan {
    pub library: bool,
    pub radio_cmds: Vec<String>,
    pub app_cmds: Vec<String>,
}

/// The searches a scope runs: My Music searches the library, Radios every radio service,
/// Apps every app, All all of them; services without a command are skipped.
pub open spec fn plan_ok(p: SearchPlan, scope: SearchScope, apps: Seq<RadioItem>, radios: Seq<RadioItem>) -> bool {
    &&& p.library == (scope == SearchScope::MyMusic || scope == SearchScope::All)
    &&& texts(p.radio_cmds@) == (if scope == SearchScope::Radios || scope == SearchScope::All { service_cmds(radios) } else { Seq::empty() })
    &&& texts(p.app_cmds@) == (if scope == SearchScope::Apps || scope == SearchScope::All { service_cmds(apps) } else { Seq::empty() })
}

fn cmds_of(services: &Vec<RadioItem>) -> (r: Vec<String>)
    ensures
        texts(r@) == service_cmds(services@),
{
    let mut out: Vec<String> = Vec::new();
    let mut i: usize = 0;
    while i < services.len()
        invariant
            i <= services@.len(),
            texts(out@) == service_cmds(services@.take(i as int)),
        decreases services@.len() - i,
    {
        assert(services@.take(i + 1).drop_last() =~= services@.take(i as int));
        if let Some(c) = &services[i].cmd {
            out.push(c.clone());
        }
        assert(texts(out@) =~= service_cmds(services@.take(i + 1)));
        i += 1;
    }
    assert(services@.take(services@.len() as int) =~= services@);
    out
}

/// The searches of `scope` (see `plan_ok`).
pub fn search_plan(scope: SearchScope, app_services: &Vec<RadioItem>, radio_services: &Vec<RadioItem>) -> (r: SearchPlan)
    ensures
        plan_ok(r, scope, app_services@, radio_services@),
{
    let library = scope == SearchScope::MyMusic || scope == SearchScope::All;
    let radio_cmds = if scope == SearchScope::Radios || scope == SearchScope::All {
        cmds_of(radio_services)
    } else {
        let v: Vec<String> = Vec::new();
        assert(texts(v@) =~= Seq::<Seq<char>>::empty());
        v
    };
    let app_cmds = if scope == SearchScope::Apps || scope == SearchScope::All {
        cmds_of(app_services)
    } else {
        let v: Vec<String> = Vec::new();
        assert(texts(v@) =~= Seq::<Seq<char>>::empty());
        v
    };
    SearchPlan { library, radio_cmds, app_cmds }
}

/// The answers of several searches one after the other.
pub open spec fn joined(groups: Seq<Seq<RadioItem>>) -> Seq<RadioItem>
    decreases groups.len(),
{
    if groups.len() == 0 {
        Seq::empty()
    } else {
        joined(groups.drop_last()) + groups.last()
    }
}

/// The radio answers whose name holds the lower-case query, as results.
pub open spec fn radio_hits(items: Seq<RadioItem>, query_lc: Seq<char>) -> Seq<SearchResultItem>
    decreases items.len(),
{
    if items.len() == 0 {
        Seq::empty()
    } else {
        let rest = radio_hits(items.drop_last(), query_lc);
        if spec_text_matches(query_lc, items.last().name@) {
            rest.push(SearchResultItem::RadioItem(items.last()))
        } else {
            rest
        }
    }
}

/// The library's answer as results: artists, albums, tracks, playlists, in that order.
pub open spec fn library_hits(lib: Option<(Seq<Artist>, Seq<Album>, Seq<Track>, Seq<Playlist>)>) -> Seq<SearchResultItem> {
    match lib {
        Some((ar, al, tr, pl)) => ar.map_values(|a: Artist| SearchResultItem::Artist(a))
            + al.map_values(|a: Album| SearchResultItem::Album(a))
            + tr.map_values(|t: Track| SearchResultItem::Track(t))
            + pl.map_values(|p: Playlist| SearchResultItem::Playlist(p)),
        None => Seq::empty(),
    }
}

/// The views of groups of answers.
pub open spec fn groups_v(groups: Seq<Vec<RadioItem>>) -> Seq<Seq<RadioItem>> {
    groups.map_values(|v: Vec<RadioItem>| v@)
}

/// The results of a search for `query`: the library's (when it answered), then the radio
/// answers whose name contains the query (ignoring case), then every app answer.
pub open spec fn spec_search_results(
    lib: Option<(Seq<Artist>, Seq<Album>, Seq<Track>, Seq<Playlist>)>,
    radios: Seq<Seq<RadioItem>>,
    apps: Seq<Seq<RadioItem>>,
    query: Seq<char>,
) -> Seq<SearchResultItem> {
    library_hits(lib) + radio_hits(joined(radios), spec_lowercase(query))
        + joined(apps).map_values(|i: RadioItem| SearchResultItem::AppItem(i))
}

fn push_all<T, F: Fn(&T) -> SearchResultItem>(out: &mut Vec<SearchResultItem>, items: &Vec<T>, f: F, Ghost(g): Ghost<spec_fn(T) -> SearchResultItem>)
    requires
        forall|x: &T| #[trigger] f.requires((x,)),
        forall|x: &T, r: SearchResultItem| f.ensures((x,), r) ==> r == g(*x),
    ensures
        final(out)@ == old(out)@ + items@.map_values(g),
{
    let ghost start = out@;
    let mut i: usize = 0;
    while i < items.len()
        invariant
            i <= items@.len(),
            out@ == start + items@.take(i as int).map_values(g),
            forall|x: &T| #[trigger] f.requires((x,)),
            forall|x: &T, r: SearchResultItem| f.ensures((x,), r) ==> r == g(*x),
        decreases items@.len() - i,
    {
        let r = f(&items[i]);
        out.push(r);
        assert(items@.take(i + 1).map_values(g) =~= items@.take(i as int).map_values(g).push(g(items@[i as int])));
        i += 1;
    }
    assert(items@.take(items@.len() as int) =~= items@);
}

/// Puts the answers of a search together (see `spec_search_results`).
pub fn search_results(
    library: Option<(Vec<Artist>, Vec<Album>, Vec<Track>, Vec<Playlist>)>,
    radios: &Vec<Vec<RadioItem>>,
    apps: &Vec<Vec<RadioItem>>,
    query: &str,
) -> (r: Vec<SearchResultItem>)
    ensures
        r@ == spec_search_results(
            match library {
                Some((ar, al, tr, pl)) => Some((ar@, al@, tr@, pl@)),
                None => None,
            },
            groups_v(radios@),
            groups_v(apps@),
            query@,
        ),
{
    let mut out: Vec<SearchResultItem> = Vec::new();
    if let Some((ar, al, tr, pl)) = &library {
        push_all(&mut out, ar, |a: &Artist| -> (r: SearchResultItem) ensures r == SearchResultItem::Artist(*a) { SearchResultItem::Artist(a.clone()) },
            Ghost(|a: Artist| SearchResultItem::Artist(a)));
        push_all(&mut out, al, |a: &Album| -> (r: SearchResultItem) ensures r == SearchResultItem::Album(*a) { SearchResultItem::Album(a.clone()) },
            Ghost(|a: Album| SearchResultItem::Album(a)));
        push_all(&mut out, tr, |t: &Track| -> (r: SearchResultItem) ensures r == SearchResultItem::Track(*t) { SearchResultItem::Track(t.clone()) },
            Ghost(|t: Track| SearchResultItem::Track(t)));
        push_all(&mut out, pl, |p: &Playlist| -> (r: SearchResultItem) ensures r == SearchResultItem::Playlist(*p) { SearchResultItem::Playlist(p.clone()) },
            Ghost(|p: Playlist| SearchResultItem::Playlist(p)));
        assert(out@ =~= library_hits(Some((ar@, al@, tr@, pl@))));
    } else {
        assert(out@ =~= library_hits(None));
    }
    let ghost lib_part = out@;
    let q = to_lowercase(query);
    let ghost gv = groups_v(radios@);
    let mut i: usize = 0;
    while i < radios.len()
        invariant
            i <= radios@.len(),
            gv == groups_v(radios@),
            q@ == spec_lowercase(query@),
            out@ == lib_part + radio_hits(joined(gv.take(i as int)), q@),
        decreases radios@.len() - i,
    {
        let group = &radios[i];
        let ghost before = joined(gv.take(i as int));
        assert(gv.take(i + 1).drop_last() =~= gv.take(i as int));
        assert(gv.take(i + 1).last() == group@);
        let mut j: usize = 0;
        while j < group.len()
            invariant
                j <= group@.len(),
                q@ == spec_lowercase(query@),
                out@ == lib_part + radio_hits(before + group@.take(j as int), q@),
            decreases group@.len() - j,
        {
            let item = &group[j];
            assert((before + group@.take(j + 1)).drop_last() =~= before + group@.take(j as int));
            assert((before + group@.take(j + 1)).last() == *item);
            if text_matches(q.as_str(), item.name.as_str()) {
                out.push(SearchResultItem::RadioItem(item.clone()));
            }
            assert(out@ =~= lib_part + radio_hits(before + group@.take(j + 1), q@));
            j += 1;
        }
        assert(group@.take(group@.len() as int) =~= group@);
        i += 1;
    }
    assert(gv.take(radios@.len() as int) =~= gv);
    let ghost radio_part = out@;
    let ghost av = groups_v(apps@);
    let mut k: usize = 0;
    while k < apps.len()
        invariant
            k <= apps@.len(),
            av == groups_v(apps@),
            out@ == radio_part + joined(av.take(k as int)).map_values(|x: RadioItem| SearchResultItem::AppItem(x)),
        decreases apps@.len() - k,
    {
        let group = &apps[k];
        let ghost before = out@;
        assert(av.take(k + 1).drop_last() =~= av.take(k as int));
        assert(av.take(k + 1).last() == group@);
        push_all(&mut out, group, |x: &RadioItem| -> (r: SearchResultItem) ensures r == SearchResultItem::AppItem(*x) { SearchResultItem::AppItem(x.clone()) },
            Ghost(|x: RadioItem| SearchResultItem::AppItem(x)));
        assert(joined(av.take(k + 1)).map_values(|x: RadioItem| SearchResultItem::AppItem(x))
            =~= joined(av.take(k as int)).map_values(|x: RadioItem| SearchResultItem::AppItem(x))
                + group@.map_values(|x: RadioItem| SearchResultItem::AppItem(x)));
        k += 1;
    }
    assert(av.take(apps@.len() as int) =~= av);
    out
}

/// The app's search entry point among `items`: the id of the first item of type "search"
/// (which may have none), when there is such an item.
pub open spec fn spec_search_node(items: Seq<RadioItem>) -> Option<Option<Seq<char>>>
    decreases items.len(),
{
    if items.len() == 0 {
        None
    } else if items[0].item_type@ == "search"@ {
        Some(match items[0].item_id { Some(id) => Some(id@), None => None })
    } else {
        spec_search_node(items.drop_first())
    }
}

/// The app's search entry point among `items` (see `spec_search_node`).
pub fn search_node(items: &Vec<RadioItem>) -> (r: Option<Option<String>>)
    ensures
        match r {
            Some(id) => spec_search_node(items@) == Some(match id { Some(s) => Some(s@), None => None::<Seq<char>> }),
            None => spec_search_node(items@) is None,
        },
{
    let mut i: usize = 0;
    assert(items@.skip(0) =~= items@);
    while i < items.len()
        invariant
            i <= items@.len(),
            spec_search_node(items@) == spec_search_node(items@.skip(i as int)),
        decreases items@.len() - i,
    {
        assert(items@.skip(i as int).drop_first() =~= items@.skip(i + 1));
        assert(items@.skip(i as int)[0] == items@[i as int]);
        if str_eq(items[i].item_type.as_str(), "search") {
            return Some(crate::api::clone_opt_string(&items[i].item_id));
        }
        i += 1;
    }
    assert(items@.skip(i as int) =~= Seq::<RadioItem>::empty());
    None
}

/// The folders that may hold an app's search: the ids of the items whose name contains
/// "search" (ignoring case), in order.
pub open spec fn spec_search_folders(items: Seq<RadioItem>) -> Seq<Seq<char>>
    decreases items.len(),
{
    if items.len() == 0 {
        Seq::empty()
    } else {
        let rest = spec_search_folders(items.drop_last());
        let it = items.last();
        if seq_contains(spec_lowercase(it.name@), "search"@) && it.item_id is Some {
            rest.push(it.item_id.unwrap()@)
        } else {
            rest
        }
    }
}

/// The folders that may hold an app's search (see `spec_search_folders`).
pub fn search_folders(items: &Vec<RadioItem>) -> (r: Vec<String>)
    ensures
        texts(r@) == spec_search_folders(items@),
{
    let mut out: Vec<String> = Vec::new();
    let mut i: usize = 0;
    while i < items.len()
        invariant
            i <= items@.len(),
            texts(out@) == spec_search_folders(items@.take(i as int)),
        decreases items@.len() - i,
    {
        assert(items@.take(i + 1).drop_last() =~= items@.take(i as int));
        let lower = to_lowercase(items[i].name.as_str());
        if contains(lower.as_str(), "search") {
            if let Some(id) = &items[i].item_id {
                out.push(id.clone());
            }
        }
        assert(texts(out@) =~= spec_search_folders(items@.take(i + 1)));
        i += 1;
    }
    assert(items@.take(items@.len() as int) =~= items@);
    out
}

} // verus!
