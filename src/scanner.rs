//! The scan of a report feed: the search for one station's report, the field
//! coercions, and the listing of stations.
use vstd::prelude::*;
use vstd::string::StringExecFns;
use crate::events::{XmlEvent, events_of, upper_of, uppercase, xml_event_stream};
use crate::record::{Metar, MetarView, empty_view, sky_view};
use crate::text::{check_real, int_value, is_named, is_prefix, is_real_text, parse_int, starts_with};

verus! {

/// Why a scan stopped without a result.
#[derive(Debug, Clone, Copy, PartialEq, Eq, Structural)]
pub enum ScanError {
    /// The document is malformed, ends inside a record, or a field that should
    /// hold text holds something else.
    Structure,
    /// A numeric field holds text that is not a number.
    Coercion,
}

/// The height recorded for each cloud layer, whose attributes are not decoded.
pub const SKY_PLACEHOLDER_BASE: i32 = 1337;

/// Cursor over the events from position `p`: skips to the closing tag `end`
/// that matches the element already open, counting nested elements of the same
/// name; gives the position just after it.
pub open spec fn skip_spec(evs: Seq<XmlEvent>, p: nat, end: Seq<char>, depth: nat) -> Result<nat, ScanError>
    decreases evs.len() - p,
{
    if p >= evs.len() {
        Err(ScanError::Structure)
    } else {
        match evs[p as int] {
            XmlEvent::End(n) => if n@ == end {
                if depth == 0 {
                    Ok(p + 1)
                } else {
                    skip_spec(evs, p + 1, end, (depth - 1) as nat)
                }
            } else {
                skip_spec(evs, p + 1, end, depth)
            },
            XmlEvent::Start(n) => if n@ == end {
                skip_spec(evs, p + 1, end, depth + 1)
            } else {
                skip_spec(evs, p + 1, end, depth)
            },
            XmlEvent::Fault => Err(ScanError::Structure),
            XmlEvent::Eof => Err(ScanError::Structure),
            _ => skip_spec(evs, p + 1, end, depth),
        }
    }
}

/// Reads the text of the element `end` whose opening tag ends before `p`: the
/// text node that follows, or nothing if the element closes at once; then skips
/// past the element's closing tag.
pub open spec fn text_spec(evs: Seq<XmlEvent>, p: nat, end: Seq<char>) -> Result<(Seq<char>, nat), ScanError> {
    if p >= evs.len() {
        Err(ScanError::Structure)
    } else {
        match evs[p as int] {
            XmlEvent::Text(t) => match skip_spec(evs, p + 1, end, 0) {
                Ok(q) => Ok((t@, q)),
                Err(e) => Err(e),
            },
            XmlEvent::End(n) => if n@ == end {
                Ok((Seq::empty(), p + 1))
            } else {
                Err(ScanError::Structure)
            },
            _ => Err(ScanError::Structure),
        }
    }
}

/// A record updated by a decimal field, if its text is a decimal number.
pub open spec fn real_field(t: Seq<char>, m: MetarView) -> Result<MetarView, ScanError> {
    if is_real_text(t) {
        Ok(m)
    } else {
        Err(ScanError::Coercion)
    }
}

/// The names of the fields held as decimal numbers.
pub open spec fn is_real_field(name: Seq<char>) -> bool {
    name == "latitude"@ || name == "longitude"@ || name == "temp_c"@ || name == "dewpoint_c"@
        || name == "visibility_statute_mi"@ || name == "altim_in_hg"@ || name == "elevation_m"@
}

/// The record after the field `name` was read with text `t`.
pub open spec fn field_spec(m: MetarView, name: Seq<char>, t: Seq<char>) -> Result<MetarView, ScanError> {
    if name == "station_id"@ {
        Ok(MetarView { station_id: t, ..m })
    } else if name == "observation_time"@ {
        Ok(MetarView { observation_time: t, ..m })
    } else if name == "latitude"@ {
        real_field(t, MetarView { latitude: t, ..m })
    } else if name == "longitude"@ {
        real_field(t, MetarView { longitude: t, ..m })
    } else if name == "temp_c"@ {
        real_field(t, MetarView { temperature: t, ..m })
    } else if name == "dewpoint_c"@ {
        real_field(t, MetarView { dewpoint: t, ..m })
    } else if name == "wind_dir_degrees"@ {
        match int_value(t) {
            Some(v) => Ok(MetarView { wind_dir_degrees: v, ..m }),
            None => Err(ScanError::Coercion),
        }
    } else if name == "wind_speed_kt"@ {
        match int_value(t) {
            Some(v) => Ok(MetarView { wind_speed_knots: v, ..m }),
            None => Err(ScanError::Coercion),
        }
    } else if name == "visibility_statute_mi"@ {
        real_field(t, MetarView { visibility: t, ..m })
    } else if name == "altim_in_hg"@ {
        real_field(t, MetarView { altim_in_hg: t, ..m })
    } else if name == "wx_string"@ {
        Ok(MetarView { wx: t, ..m })
    } else if name == "sky_condition"@ {
        Ok(MetarView { sky_condition: m.sky_condition.push(("HAIHAI"@, SKY_PLACEHOLDER_BASE)), ..m })
    } else if name == "flight_category"@ {
        Ok(MetarView { flight_category: t, ..m })
    } else if name == "metar_type"@ {
        Ok(MetarView { metar_type: t, ..m })
    } else if name == "elevation_m"@ {
        real_field(t, MetarView { elevation_meters: t, ..m })
    } else {
        Ok(m)
    }
}

/// Handles the child element `name` of a record, whose opening tag ends before
/// `p`: the quality-control flags take the name and text of their first nested
/// element; any other field takes its text, coerced.
pub open spec fn apply_spec(evs: Seq<XmlEvent>, p: nat, name: Seq<char>, m: MetarView) -> Result<(nat, MetarView), ScanError> {
    if name == "quality_control_flags"@ {
        if p >= evs.len() {
            Err(ScanError::Structure)
        } else {
            match evs[p as int] {
                XmlEvent::Start(n) => match text_spec(evs, p + 1, n@) {
                    Ok((t, q)) => Ok((q, MetarView { quality_control_flags: (n@, t), ..m })),
                    Err(e) => Err(e),
                },
                XmlEvent::Fault => Err(ScanError::Structure),
                _ => Ok((p + 1, m)),
            }
        }
    } else {
        match text_spec(evs, p, name) {
            Ok((t, q)) => match field_spec(m, name, t) {
                Ok(m2) => Ok((q, m2)),
                Err(e) => Err(e),
            },
            Err(e) => Err(e),
        }
    }
}

/// The record built from the fields found from `p` up to the closing `METAR`
/// tag; the end of the document inside a record is an error.
pub open spec fn record_spec(evs: Seq<XmlEvent>, p: nat, m: MetarView) -> Result<MetarView, ScanError>
    decreases evs.len() - p,
{
    if p >= evs.len() {
        Err(ScanError::Structure)
    } else {
        match evs[p as int] {
            XmlEvent::End(n) => if n@ == "METAR"@ {
                Ok(m)
            } else {
                record_spec(evs, p + 1, m)
            },
            XmlEvent::Start(n) => match apply_spec(evs, p + 1, n@, m) {
                Ok((q, m2)) => if p < q <= evs.len() {
                    record_spec(evs, q, m2)
                } else {
                    Err(ScanError::Structure)
                },
                Err(e) => Err(e),
            },
            XmlEvent::Fault => Err(ScanError::Structure),
            XmlEvent::Eof => Err(ScanError::Structure),
            _ => record_spec(evs, p + 1, m),
        }
    }
}

/// The search from position `p` for the first report whose raw text begins with
/// `target`: that report, with its raw text; the empty record if the document
/// ends first. A report that does not match is skipped whole, unread.
pub open spec fn search_spec(evs: Seq<XmlEvent>, p: nat, target: Seq<char>) -> Result<MetarView, ScanError>
    decreases evs.len() - p,
{
    if p >= evs.len() {
        Ok(empty_view())
    } else {
        match evs[p as int] {
            XmlEvent::Start(n) => if n@ == "raw_text"@ {
                match text_spec(evs, p + 1, "raw_text"@) {
                    Ok((t, q)) => if is_prefix(target, t) {
                        match record_spec(evs, q, empty_view()) {
                            Ok(m) => Ok(MetarView { raw_text: t, ..m }),
                            Err(e) => Err(e),
                        }
                    } else {
                        match skip_spec(evs, q, "METAR"@, 0) {
                            Ok(q2) => if p < q2 <= evs.len() {
                                search_spec(evs, q2, target)
                            } else {
                                Err(ScanError::Structure)
                            },
                            Err(e) => Err(e),
                        }
                    },
                    Err(e) => Err(e),
                }
            } else {
                search_spec(evs, p + 1, target)
            },
            XmlEvent::Fault => Err(ScanError::Structure),
            XmlEvent::Eof => Ok(empty_view()),
            _ => search_spec(evs, p + 1, target),
        }
    }
}

/// The station identifiers of the reports from position `p`, in document
/// order, after those already in `acc`.
pub open spec fn list_spec(evs: Seq<XmlEvent>, p: nat, acc: Seq<Seq<char>>) -> Result<Seq<Seq<char>>, ScanError>
    decreases evs.len() - p,
{
    if p >= evs.len() {
        Ok(acc)
    } else {
        match evs[p as int] {
            XmlEvent::Start(n) => if n@ == "station_id"@ {
                match text_spec(evs, p + 1, "station_id"@) {
                    Ok((t, q)) => match skip_spec(evs, q, "METAR"@, 0) {
                        Ok(q2) => if p < q2 <= evs.len() {
                            list_spec(evs, q2, acc.push(t))
                        } else {
                            Err(ScanError::Structure)
                        },
                        Err(e) => Err(e),
                    },
                    Err(e) => Err(e),
                }
            } else {
                list_spec(evs, p + 1, acc)
            },
            XmlEvent::Fault => Err(ScanError::Structure),
            XmlEvent::Eof => Ok(acc),
            _ => list_spec(evs, p + 1, acc),
        }
    }
}

fn skip_to_end(evs: &Vec<XmlEvent>, p: usize, end: &str) -> (r: Result<usize, ScanError>)
    requires
        p <= evs@.len(),
    ensures
        skip_spec(evs@, p as nat, end@, 0) == (match r {
            Ok(q) => Ok(q as nat),
            Err(e) => Err(e),
        }),
        r is Ok ==> p < r->Ok_0 <= evs@.len(),
{
    let mut i: usize = p;
    let mut depth: usize = 0;
    while i < evs.len()
        invariant
            p <= i <= evs@.len(),
            depth <= i,
            skip_spec(evs@, i as nat, end@, depth as nat) == skip_spec(evs@, p as nat, end@, 0),
        decreases evs@.len() - i,
    {
        match &evs[i] {
            XmlEvent::End(n) => {
                if is_named(n.as_str(), end) {
                    if depth == 0 {
                        return Ok(i + 1);
                    }
                    depth = depth - 1;
                }
            },
            XmlEvent::Start(n) => {
                if is_named(n.as_str(), end) {
                    depth = depth + 1;
                }
            },
            XmlEvent::Fault => {
                return Err(ScanError::Structure);
            },
            XmlEvent::Eof => {
                return Err(ScanError::Structure);
            },
            _ => {},
        }
        i = i + 1;
    }
    Err(ScanError::Structure)
}

fn read_text(evs: &Vec<XmlEvent>, p: usize, end: &str) -> (r: Result<(String, usize), ScanError>)
    requires
        p <= evs@.len(),
    ensures
        text_spec(evs@, p as nat, end@) == (match r {
            Ok((t, q)) => Ok((t@, q as nat)),
            Err(e) => Err(e),
        }),
        r is Ok ==> p < r->Ok_0.1 <= evs@.len(),
{
    if p >= evs.len() {
        return Err(ScanError::Structure);
    }
    match &evs[p] {
        XmlEvent::Text(t) => match skip_to_end(evs, p + 1, end) {
            Ok(q) => Ok((t.clone(), q)),
            Err(e) => Err(e),
        },
        XmlEvent::End(n) => {
            if is_named(n.as_str(), end) {
                Ok((String::new(), p + 1))
            } else {
                Err(ScanError::Structure)
            }
        },
        _ => Err(ScanError::Structure),
    }
}

/// Stores the text `t` of the field `name` into the record, coerced as the
/// field asks; unknown names leave the record as it is.
pub fn set_field(m: &mut Metar, name: &str, t: String) -> (r: Result<(), ScanError>)
    ensures
        field_spec(old(m)@, name@, t@) == (match r {
            Ok(_) => Ok(final(m)@),
            Err(e) => Err(e),
        }),
{
    if is_named(name, "station_id") {
        m.station_id = t;
    } else if is_named(name, "observation_time") {
        m.observation_time = t;
    } else if is_named(name, "latitude") {
        if !check_real(t.as_str()) {
            return Err(ScanError::Coercion);
        }
        m.latitude = t;
    } else if is_named(name, "longitude") {
        if !check_real(t.as_str()) {
            return Err(ScanError::Coercion);
        }
        m.longitude = t;
    } else if is_named(name, "temp_c") {
        if !check_real(t.as_str()) {
            return Err(ScanError::Coercion);
        }
        m.temperature = t;
    } else if is_named(name, "dewpoint_c") {
        if !check_real(t.as_str()) {
            return Err(ScanError::Coercion);
        }
        m.dewpoint = t;
    } else if is_named(name, "wind_dir_degrees") {
        match parse_int(t.as_str()) {
            Some(v) => m.wind_dir_degrees = v,
            None => return Err(ScanError::Coercion),
        }
    } else if is_named(name, "wind_speed_kt") {
        match parse_int(t.as_str()) {
            Some(v) => m.wind_speed_knots = v,
            None => return Err(ScanError::Coercion),
        }
    } else if is_named(name, "visibility_statute_mi") {
        if !check_real(t.as_str()) {
            return Err(ScanError::Coercion);
        }
        m.visibility = t;
    } else if is_named(name, "altim_in_hg") {
        if !check_real(t.as_str()) {
            return Err(ScanError::Coercion);
        }
        m.altim_in_hg = t;
    } else if is_named(name, "wx_string") {
        m.wx = t;
    } else if is_named(name, "sky_condition") {
        let ghost before = m.sky_condition@;
        m.sky_condition.push(("HAIHAI".to_owned(), SKY_PLACEHOLDER_BASE));
        assert(sky_view(m.sky_condition@) =~= sky_view(before).push(("HAIHAI"@, SKY_PLACEHOLDER_BASE)));
    } else if is_named(name, "flight_category") {
        m.flight_category = t;
    } else if is_named(name, "metar_type") {
        m.metar_type = t;
    } else if is_named(name, "elevation_m") {
        if !check_real(t.as_str()) {
            return Err(ScanError::Coercion);
        }
        m.elevation_meters = t;
    }
    Ok(())
}

/// Handles the child element `name` of a record, whose opening tag ends before
/// `p`; gives the position after the child.
fn apply_field(evs: &Vec<XmlEvent>, p: usize, name: &str, m: &mut Metar) -> (r: Result<usize, ScanError>)
    requires
        p <= evs@.len(),
    ensures
        apply_spec(evs@, p as nat, name@, old(m)@) == (match r {
            Ok(q) => Ok((q as nat, final(m)@)),
            Err(e) => Err(e),
        }),
        r is Ok ==> p < r->Ok_0 <= evs@.len(),
{
    if is_named(name, "quality_control_flags") {
        if p >= evs.len() {
            return Err(ScanError::Structure);
        }
        match &evs[p] {
            XmlEvent::Start(n) => match read_text(evs, p + 1, n.as_str()) {
                Ok((t, q)) => {
                    m.quality_control_flags = (n.clone(), t);
                    Ok(q)
                },
                Err(e) => Err(e),
            },
            XmlEvent::Fault => Err(ScanError::Structure),
            _ => Ok(p + 1),
        }
    } else {
        match read_text(evs, p, name) {
            Ok((t, q)) => match set_field(m, name, t) {
                Ok(()) => Ok(q),
                Err(e) => Err(e),
            },
            Err(e) => Err(e),
        }
    }
}

/// Fills the record from the fields found from `p` up to the closing `METAR`
/// tag.
fn fill_record(evs: &Vec<XmlEvent>, p: usize, m: &mut Metar) -> (r: Result<(), ScanError>)
    requires
        p <= evs@.len(),
    ensures
        record_spec(evs@, p as nat, old(m)@) == (match r {
            Ok(_) => Ok(final(m)@),
            Err(e) => Err(e),
        }),
{
    let mut i: usize = p;
    while i < evs.len()
        invariant
            i <= evs@.len(),
            record_spec(evs@, i as nat, m@) == record_spec(evs@, p as nat, old(m)@),
        decreases evs@.len() - i,
    {
        match &evs[i] {
            XmlEvent::End(n) => {
                if is_named(n.as_str(), "METAR") {
                    return Ok(());
                }
                i = i + 1;
            },
            XmlEvent::Start(n) => match apply_field(evs, i + 1, n.as_str(), m) {
                Ok(q) => {
                    i = q;
                },
                Err(e) => {
                    return Err(e);
                },
            },
            XmlEvent::Fault => {
                return Err(ScanError::Structure);
            },
            XmlEvent::Eof => {
                return Err(ScanError::Structure);
            },
            _ => {
                i = i + 1;
            },
        }
    }
    Err(ScanError::Structure)
}

/// Searches the events of a report feed for the first report whose raw text
/// begins with `target` (compared exactly). Gives that report, or the empty
/// record if the document ends first.
pub fn search_events(evs: &Vec<XmlEvent>, target: &str) -> (r: Result<Metar, ScanError>)
    ensures
        search_spec(evs@, 0, target@) == (match r {
            Ok(m) => Ok(m@),
            Err(e) => Err(e),
        }),
{
    let mut i: usize = 0;
    while i < evs.len()
        invariant
            i <= evs@.len(),
            search_spec(evs@, i as nat, target@) == search_spec(evs@, 0, target@),
        decreases evs@.len() - i,
    {
        match &evs[i] {
            XmlEvent::Start(n) => {
                if is_named(n.as_str(), "raw_text") {
                    match read_text(evs, i + 1, "raw_text") {
                        Ok((t, q)) => {
                            if starts_with(t.as_str(), target) {
                                let mut m = Metar::new();
                                match fill_record(evs, q, &mut m) {
                                    Ok(()) => {
                                        m.raw_text = t;
                                        return Ok(m);
                                    },
                                    Err(e) => {
                                        return Err(e);
                                    },
                                }
                            } else {
                                match skip_to_end(evs, q, "METAR") {
                                    Ok(q2) => {
                                        i = q2;
                                    },
                                    Err(e) => {
                                        return Err(e);
                                    },
                                }
                            }
                        },
                        Err(e) => {
                            return Err(e);
                        },
                    }
                } else {
                    i = i + 1;
                }
            },
            XmlEvent::Fault => {
                return Err(ScanError::Structure);
            },
            XmlEvent::Eof => {
                return Ok(Metar::new());
            },
            _ => {
                i = i + 1;
            },
        }
    }
    Ok(Metar::new())
}

/// The station identifiers of all reports in the events of a feed, in
/// document order, duplicates kept.
pub fn list_station_events(evs: &Vec<XmlEvent>) -> (r: Result<Vec<String>, ScanError>)
    ensures
        list_spec(evs@, 0, Seq::empty()) == (match r {
            Ok(ids) => Ok(ids@.map_values(|s: String| s@)),
            Err(e) => Err(e),
        }),
{
    let mut ids: Vec<String> = Vec::new();
    let mut i: usize = 0;
    assert(ids@.map_values(|s: String| s@) =~= Seq::empty());
    while i < evs.len()
        invariant
            i <= evs@.len(),
            list_spec(evs@, i as nat, ids@.map_values(|s: String| s@)) == list_spec(evs@, 0, Seq::empty()),
        decreases evs@.len() - i,
    {
        match &evs[i] {
            XmlEvent::Start(n) => {
                if is_named(n.as_str(), "station_id") {
                    match read_text(evs, i + 1, "station_id") {
                        Ok((t, q)) => match skip_to_end(evs, q, "METAR") {
                            Ok(q2) => {
                                let ghost before = ids@;
                                ids.push(t);
                                assert(ids@.map_values(|s: String| s@) =~= before.map_values(
                                    |s: String| s@,
                                ).push(t@));
                                i = q2;
                            },
                            Err(e) => {
                                return Err(e);
                            },
                        },
                        Err(e) => {
                            return Err(e);
                        },
                    }
                } else {
                    i = i + 1;
                }
            },
            XmlEvent::Fault => {
                return Err(ScanError::Structure);
            },
            XmlEvent::Eof => {
                return Ok(ids);
            },
            _ => {
                i = i + 1;
            },
        }
    }
    Ok(ids)
}

/// Searches a report feed for the report of the station `id`: the first report
/// whose raw text begins with `id` in upper case (the document's text is
/// compared as it stands). Gives the empty record if there is none.
pub fn search_xml_for_metar(xml: &str, id: &str) -> (r: Result<Metar, ScanError>)
    ensures
        search_spec(events_of(xml@), 0, upper_of(id@)) == (match r {
            Ok(m) => Ok(m@),
            Err(e) => Err(e),
        }),
{
    let evs = xml_event_stream(xml);
    let target = uppercase(id);
    search_events(&evs, target.as_str())
}

/// The station identifiers of all reports of a feed, in document order,
/// duplicates kept.
pub fn list_avalible_stations(xml: &str) -> (r: Result<Vec<String>, ScanError>)
    ensures
        list_spec(events_of(xml@), 0, Seq::empty()) == (match r {
            Ok(ids) => Ok(ids@.map_values(|s: String| s@)),
            Err(e) => Err(e),
        }),
{
    let evs = xml_event_stream(xml);
    list_station_events(&evs)
}

/// The listing line of station identifiers: each one followed by `", "`.
pub open spec fn listing_text(ids: Seq<Seq<char>>) -> Seq<char>
    decreases ids.len(),
{
    if ids.len() == 0 {
        Seq::empty()
    } else {
        listing_text(ids.drop_last()) + ids.last() + ", "@
    }
}

/// Writes the listing line of station identifiers.
pub fn station_listing(ids: &Vec<String>) -> (r: String)
    ensures
        r@ == listing_text(ids@.map_values(|s: String| s@)),
{
    let mut out = String::new();
    let mut i: usize = 0;
    while i < ids.len()
        invariant
            i <= ids@.len(),
            out@ == listing_text(ids@.map_values(|s: String| s@).subrange(0, i as int)),
        decreases ids@.len() - i,
    {
        let ghost views = ids@.map_values(|s: String| s@);
        assert(views.subrange(0, i + 1).drop_last() =~= views.subrange(0, i as int));
        out.append(ids[i].as_str());
        out.append(", ");
        i = i + 1;
    }
    assert(ids@.map_values(|s: String| s@).subrange(0, ids@.len() as int) =~= ids@.map_values(|s: String| s@));
    out
}

} // verus!
