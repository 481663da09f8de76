//! Properties of the scan, proved over the event model.
use vstd::prelude::*;
use crate::events::XmlEvent;
use crate::record::{MetarView, empty_view};
use crate::scanner::{
    ScanError, field_spec, is_real_field, record_spec, search_spec, skip_spec, text_spec,
};
use crate::text::{int_value, is_prefix, is_real_text};

verus! {

/// The element at `p` is a raw-text element.
pub open spec fn raw_text_at(evs: Seq<XmlEvent>, p: int) -> bool {
    0 <= p < evs.len() && (evs[p] matches XmlEvent::Start(n) && n@ == "raw_text"@)
}

/// No raw-text element of the document has a text that begins with `target`.
pub open spec fn no_report_matches(evs: Seq<XmlEvent>, target: Seq<char>) -> bool {
    forall|p: int| #![trigger raw_text_at(evs, p)] raw_text_at(evs, p) ==> (match text_spec(evs, (p + 1) as nat, "raw_text"@) {
        Ok((t, q)) => !is_prefix(target, t),
        Err(_) => true,
    })
}

/// The report whose raw-text element stands at `p` matches `target`, and `m` is
/// the record built from its fields, with its full raw text.
pub open spec fn report_at(evs: Seq<XmlEvent>, p: int, target: Seq<char>, m: MetarView) -> bool {
    raw_text_at(evs, p) && (match text_spec(evs, (p + 1) as nat, "raw_text"@) {
        Ok((t, q)) => is_prefix(target, t) && (match record_spec(evs, q, empty_view()) {
            Ok(m0) => m == MetarView { raw_text: t, ..m0 },
            Err(_) => false,
        }),
        Err(_) => false,
    })
}

/// If no report's raw text begins with the target, a search that succeeds
/// gives the empty record.
pub proof fn lemma_absent_gives_empty(evs: Seq<XmlEvent>, p: nat, target: Seq<char>)
    requires
        no_report_matches(evs, target),
    ensures
        search_spec(evs, p, target) is Ok ==> search_spec(evs, p, target)->Ok_0 == empty_view(),
    decreases evs.len() - p,
{
    if p < evs.len() {
        match evs[p as int] {
            XmlEvent::Start(n) => {
                if n@ == "raw_text"@ {
                    assert(raw_text_at(evs, p as int));
                    match text_spec(evs, p + 1, "raw_text"@) {
                        Ok((t, q)) => {
                            match skip_spec(evs, q, "METAR"@, 0) {
                                Ok(q2) => {
                                    if p < q2 <= evs.len() {
                                        lemma_absent_gives_empty(evs, q2, target);
                                    }
                                },
                                Err(_) => {},
                            }
                        },
                        Err(_) => {},
                    }
                } else {
                    lemma_absent_gives_empty(evs, p + 1, target);
                }
            },
            XmlEvent::Fault => {},
            XmlEvent::Eof => {},
            _ => {
                lemma_absent_gives_empty(evs, p + 1, target);
            },
        }
    }
}

/// A search that gives a record other than the empty one gives the record of a
/// report that matches the target: its fields as read and coerced, and its
/// full raw text.
pub proof fn lemma_found_is_report(evs: Seq<XmlEvent>, p: nat, target: Seq<char>)
    ensures
        search_spec(evs, p, target) is Ok && search_spec(evs, p, target)->Ok_0 != empty_view()
            ==> exists|i: int| p <= i && #[trigger] report_at(evs, i, target, search_spec(evs, p, target)->Ok_0),
    decreases evs.len() - p,
{
    if p < evs.len() {
        match evs[p as int] {
            XmlEvent::Start(n) => {
                if n@ == "raw_text"@ {
                    match text_spec(evs, p + 1, "raw_text"@) {
                        Ok((t, q)) => {
                            if is_prefix(target, t) {
                                if search_spec(evs, p, target) is Ok {
                                    assert(report_at(evs, p as int, target, search_spec(evs, p, target)->Ok_0));
                                }
                            } else {
                                match skip_spec(evs, q, "METAR"@, 0) {
                                    Ok(q2) => {
                                        if p < q2 <= evs.len() {
                                            lemma_found_is_report(evs, q2, target);
                                        }
                                    },
                                    Err(_) => {},
                                }
                            }
                        },
                        Err(_) => {},
                    }
                } else {
                    lemma_found_is_report(evs, p + 1, target);
                }
            },
            XmlEvent::Fault => {},
            XmlEvent::Eof => {},
            _ => {
                lemma_found_is_report(evs, p + 1, target);
            },
        }
    }
}

/// A report whose raw text does not match is skipped whole: the search goes on
/// after its closing tag as if it had not been there, and nothing read from it
/// is kept.
pub proof fn lemma_skip_keeps_nothing(evs: Seq<XmlEvent>, p: nat, target: Seq<char>, t: Seq<char>, q: nat, q2: nat)
    requires
        raw_text_at(evs, p as int),
        text_spec(evs, p + 1, "raw_text"@) == Ok::<(Seq<char>, nat), ScanError>((t, q)),
        !is_prefix(target, t),
        skip_spec(evs, q, "METAR"@, 0) == Ok::<nat, ScanError>(q2),
        q2 <= evs.len(),
    ensures
        p < q2 ==> search_spec(evs, p, target) == search_spec(evs, q2, target),
{
}

/// A record is only ever complete at its closing `METAR` tag: a document that
/// ends inside a record gives an error, not a partial record.
pub proof fn lemma_record_needs_close(evs: Seq<XmlEvent>, p: nat, m: MetarView)
    ensures
        record_spec(evs, p, m) is Ok ==> exists|i: int|
            p <= i < evs.len() && (#[trigger] evs[i] matches XmlEvent::End(n) && n@ == "METAR"@),
    decreases evs.len() - p,
{
    if p < evs.len() {
        match evs[p as int] {
            XmlEvent::End(n) => {
                if n@ != "METAR"@ {
                    lemma_record_needs_close(evs, p + 1, m);
                }
            },
            XmlEvent::Start(n) => {
                match crate::scanner::apply_spec(evs, p + 1, n@, m) {
                    Ok((q, m2)) => {
                        if p < q <= evs.len() {
                            lemma_record_needs_close(evs, q, m2);
                        }
                    },
                    Err(_) => {},
                }
            },
            XmlEvent::Fault => {},
            XmlEvent::Eof => {},
            _ => {
                lemma_record_needs_close(evs, p + 1, m);
            },
        }
    }
}

/// A numeric field whose text is not a number is a coercion error, never a
/// zero or a skipped field.
pub proof fn lemma_bad_number_fails(m: MetarView, name: Seq<char>, t: Seq<char>)
    ensures
        is_real_field(name) && !is_real_text(t) ==> field_spec(m, name, t) == Err::<MetarView, ScanError>(ScanError::Coercion),
        (name == "wind_dir_degrees"@ || name == "wind_speed_kt"@) && int_value(t) is None
            ==> field_spec(m, name, t) == Err::<MetarView, ScanError>(ScanError::Coercion),
{
    reveal_strlit("latitude");
    reveal_strlit("longitude");
    reveal_strlit("temp_c");
    reveal_strlit("dewpoint_c");
    reveal_strlit("visibility_statute_mi");
    reveal_strlit("altim_in_hg");
    reveal_strlit("elevation_m");
    reveal_strlit("station_id");
    reveal_strlit("observation_time");
    reveal_strlit("wind_dir_degrees");
    reveal_strlit("wind_speed_kt");
    reveal_strlit("wx_string");
    reveal_strlit("sky_condition");
    reveal_strlit("flight_category");
    reveal_strlit("metar_type");
    assert("station_id"@.len() == 10);
    assert("observation_time"@.len() == 16);
    assert("latitude"@.len() == 8);
    assert("longitude"@.len() == 9);
    assert("temp_c"@.len() == 6);
    assert("dewpoint_c"@.len() == 10);
    assert("wind_dir_degrees"@.len() == 16);
    assert("wind_speed_kt"@.len() == 13);
    assert("visibility_statute_mi"@.len() == 21);
    assert("altim_in_hg"@.len() == 11);
    assert("wx_string"@.len() == 9);
    assert("sky_condition"@.len() == 13);
    assert("flight_category"@.len() == 15);
    assert("metar_type"@.len() == 10);
    assert("elevation_m"@.len() == 11);
    assert("dewpoint_c"@[0] != "station_id"@[0]);
    assert("wind_dir_degrees"@[0] != "observation_time"@[0]);
    assert("elevation_m"@[0] != "altim_in_hg"@[0]);
    assert(name == "latitude"@ && !is_real_text(t) ==> field_spec(m, name, t) == Err::<MetarView, ScanError>(ScanError::Coercion));
    assert(name == "longitude"@ && !is_real_text(t) ==> field_spec(m, name, t) == Err::<MetarView, ScanError>(ScanError::Coercion));
    assert(name == "temp_c"@ && !is_real_text(t) ==> field_spec(m, name, t) == Err::<MetarView, ScanError>(ScanError::Coercion));
    assert(name == "dewpoint_c"@ && !is_real_text(t) ==> field_spec(m, name, t) == Err::<MetarView, ScanError>(ScanError::Coercion));
    assert(name == "visibility_statute_mi"@ && !is_real_text(t) ==> field_spec(m, name, t) == Err::<MetarView, ScanError>(ScanError::Coercion));
    assert(name == "altim_in_hg"@ && !is_real_text(t) ==> field_spec(m, name, t) == Err::<MetarView, ScanError>(ScanError::Coercion));
    assert(name == "elevation_m"@ && !is_real_text(t) ==> field_spec(m, name, t) == Err::<MetarView, ScanError>(ScanError::Coercion));
    assert(name == "wind_dir_degrees"@ && int_value(t) is None ==> field_spec(m, name, t) == Err::<MetarView, ScanError>(ScanError::Coercion));
    assert(name == "wind_speed_kt"@ && int_value(t) is None ==> field_spec(m, name, t) == Err::<MetarView, ScanError>(ScanError::Coercion));
}

} // verus!
