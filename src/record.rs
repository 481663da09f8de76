//! The weather report record.
use vstd::prelude::*;
use vstd::string::StrSliceExecFns;

verus! {

/// One decoded report of one station. Decimal quantities are held as the
/// decimal text of the feed, which the field coercion has checked.
#[derive(Debug, PartialEq)]
pub struct Metar {
    pub raw_text: String,
    pub station_id: String,
    pub observation_time: String,
    pub latitude: String,
    pub longitude: String,
    pub temperature: String,
    pub dewpoint: String,
    pub wind_dir_degrees: i32,
    pub wind_speed_knots: i32,
    pub visibility: String,
    pub altim_in_hg: String,
    pub quality_control_flags: (String, String),
    pub wx: String,
    pub sky_condition: Vec<(String, i32)>,
    pub flight_category: String,
    pub metar_type: String,
    pub elevation_meters: String,
}

/// The mathematical value of a `Metar`.
pub struct MetarView {
    pub raw_text: Seq<char>,
    pub station_id: Seq<char>,
    pub observation_time: Seq<char>,
    pub latitude: Seq<char>,
    pub longitude: Seq<char>,
    pub temperature: Seq<char>,
    pub dewpoint: Seq<char>,
    pub wind_dir_degrees: i32,
    pub wind_speed_knots: i32,
    pub visibility: Seq<char>,
    pub altim_in_hg: Seq<char>,
    pub quality_control_flags: (Seq<char>, Seq<char>),
    pub wx: Seq<char>,
    pub sky_condition: Seq<(Seq<char>, i32)>,
    pub flight_category: Seq<char>,
    pub metar_type: Seq<char>,
    pub elevation_meters: Seq<char>,
}

pub open spec fn sky_view(v: Seq<(String, i32)>) -> Seq<(Seq<char>, i32)> {
    v.map_values(|p: (String, i32)| (p.0@, p.1))
}

/// The empty record: every text empty, every number zero, no cloud layer.
/// A search that finds nothing returns it.
pub open spec fn empty_view() -> MetarView {
    MetarView {
        raw_text: Seq::empty(),
        station_id: Seq::empty(),
        observation_time: Seq::empty(),
        latitude: Seq::empty(),
        longitude: Seq::empty(),
        temperature: Seq::empty(),
        dewpoint: Seq::empty(),
        wind_dir_degrees: 0,
        wind_speed_knots: 0,
        visibility: Seq::empty(),
        altim_in_hg: Seq::empty(),
        quality_control_flags: (Seq::empty(), Seq::empty()),
        wx: Seq::empty(),
        sky_condition: Seq::empty(),
        flight_category: Seq::empty(),
        metar_type: Seq::empty(),
        elevation_meters: Seq::empty(),
    }
}

impl View for Metar {
    type V = MetarView;

    open spec fn view(&self) -> MetarView {
        MetarView {
            raw_text: self.raw_text@,
            station_id: self.station_id@,
            observation_time: self.observation_time@,
            latitude: self.latitude@,
            longitude: self.longitude@,
            temperature: self.temperature@,
            dewpoint: self.dewpoint@,
            wind_dir_degrees: self.wind_dir_degrees,
            wind_speed_knots: self.wind_speed_knots,
            visibility: self.visibility@,
            altim_in_hg: self.altim_in_hg@,
            quality_control_flags: (self.quality_control_flags.0@, self.quality_control_flags.1@),
            wx: self.wx@,
            sky_condition: sky_view(self.sky_condition@),
            flight_category: self.flight_category@,
            metar_type: self.metar_type@,
            elevation_meters: self.elevation_meters@,
        }
    }
}

impl Metar {
    /// The empty record.
    pub fn new() -> (r: Metar)
        ensures
            r@ == empty_view(),
    {
        let r = Metar {
            raw_text: String::new(),
            station_id: String::new(),
            observation_time: String::new(),
            latitude: String::new(),
            longitude: String::new(),
            temperature: String::new(),
            dewpoint: String::new(),
            wind_dir_degrees: 0,
            wind_speed_knots: 0,
            visibility: String::new(),
            altim_in_hg: String::new(),
            quality_control_flags: (String::new(), String::new()),
            wx: String::new(),
            sky_condition: Vec::new(),
            flight_category: String::new(),
            metar_type: String::new(),
            elevation_meters: String::new(),
        };
        assert(sky_view(r.sky_condition@) =~= Seq::empty());
        r
    }

    /// Whether this is the empty record, which a search returns when no
    /// report matched.
    pub fn not_found(&self) -> (r: bool)
        ensures
            r == (self@ == empty_view()),
    {
        let r = self.raw_text.unicode_len() == 0 && self.station_id.unicode_len() == 0
            && self.observation_time.unicode_len() == 0 && self.latitude.unicode_len() == 0
            && self.longitude.unicode_len() == 0 && self.temperature.unicode_len() == 0
            && self.dewpoint.unicode_len() == 0 && self.wind_dir_degrees == 0
            && self.wind_speed_knots == 0 && self.visibility.unicode_len() == 0
            && self.altim_in_hg.unicode_len() == 0
            && self.quality_control_flags.0.unicode_len() == 0
            && self.quality_control_flags.1.unicode_len() == 0 && self.wx.unicode_len() == 0
            && self.sky_condition.len() == 0 && self.flight_category.unicode_len() == 0
            && self.metar_type.unicode_len() == 0 && self.elevation_meters.unicode_len() == 0;
        proof {
            if r {
                assert(self@.raw_text =~= Seq::<char>::empty());
                assert(self@.station_id =~= Seq::<char>::empty());
                assert(self@.observation_time =~= Seq::<char>::empty());
                assert(self@.latitude =~= Seq::<char>::empty());
                assert(self@.longitude =~= Seq::<char>::empty());
                assert(self@.temperature =~= Seq::<char>::empty());
                assert(self@.dewpoint =~= Seq::<char>::empty());
                assert(self@.visibility =~= Seq::<char>::empty());
                assert(self@.altim_in_hg =~= Seq::<char>::empty());
                assert(self@.quality_control_flags.0 =~= Seq::<char>::empty());
                assert(self@.quality_control_flags.1 =~= Seq::<char>::empty());
                assert(self@.wx =~= Seq::<char>::empty());
                assert(self@.sky_condition =~= Seq::empty());
                assert(self@.flight_category =~= Seq::<char>::empty());
                assert(self@.metar_type =~= Seq::<char>::empty());
                assert(self@.elevation_meters =~= Seq::<char>::empty());
            }
            if self@ == empty_view() {
                assert(self@.sky_condition.len() == 0);
            }
        }
        r
    }
}

} // verus!
