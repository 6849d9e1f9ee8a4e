//! Weather reports from a forecast service's answer: current conditions and
//! the forecast for the coming days.

use vstd::prelude::*;
use vstd::string::*;
use crate::catalog::{registry_of, tool_descriptors, Tool};
use crate::dispatch::{concluded, dispatch, planned, result_text, unknown_tool, PlanView, ToolOutcome};
use crate::registry::{has_tool, tool_names_distinct, Registry, ToolDescriptor};
use crate::schema::{optional_field, required_field, text_argument, unsigned_argument, Arguments, FieldSpec, FieldView, Primitive, Schema, ValueView, RawArguments};
use crate::text::{concat_all, decimal, decimal_string, lemma_concat_all_push, parse_u32, parsed_u32, push_decimal, push_zero_padded, zero_padded};

verus! {

/// The answer of the forecast service.
#[derive(Clone, Debug, PartialEq, Eq)]
pub struct WttrResponse {
    pub current_condition: Vec<CurrentCondition>,
    pub nearest_area: Vec<NearestArea>,
    pub weather: Vec<WeatherDay>,
}

/// The conditions right now.
#[derive(Clone, Debug, PartialEq, Eq)]
#[allow(non_snake_case)]
pub struct CurrentCondition {
    pub temp_F: String,
    pub temp_C: String,
    pub feels_like_f: String,
    pub feels_like_c: String,
    pub humidity: String,
    pub weatherDesc: Vec<WeatherDesc>,
    pub windspeedMiles: String,
    pub windspeedKmph: String,
    pub winddir16Point: String,
    pub precipMM: String,
    pub visibility: String,
    pub pressure: String,
    pub uvIndex: String,
}

/// A description of the weather in words.
#[derive(Clone, Debug, PartialEq, Eq)]
pub struct WeatherDesc {
    pub value: String,
}

/// The place that the service took the location to be.
#[derive(Clone, Debug, PartialEq, Eq)]
#[allow(non_snake_case)]
pub struct NearestArea {
    pub areaName: Vec<AreaValue>,
    pub region: Vec<AreaValue>,
    pub country: Vec<AreaValue>,
}

/// One name of a place.
#[derive(Clone, Debug, PartialEq, Eq)]
pub struct AreaValue {
    pub value: String,
}

/// The forecast for one day.
#[derive(Clone, Debug, PartialEq, Eq)]
#[allow(non_snake_case)]
pub struct WeatherDay {
    pub date: String,
    pub maxtempF: String,
    pub maxtempC: String,
    pub mintempF: String,
    pub mintempC: String,
    pub hourly: Vec<HourlyForecast>,
}

/// The forecast for one point of a day.
#[derive(Clone, Debug, PartialEq, Eq)]
#[allow(non_snake_case)]
pub struct HourlyForecast {
    /// The time of day as hours times a hundred: `0`, `300`, ..., `2100`.
    pub time: String,
    pub tempF: String,
    pub tempC: String,
    pub weatherDesc: Vec<WeatherDesc>,
    pub chanceofrain: String,
}

/// Arguments of the request for the current weather.
#[derive(Clone, Debug, PartialEq, Eq)]
pub struct LocationParams {
    /// A city, a postal code, or latitude and longitude.
    pub location: String,
}

/// Arguments of the request for a forecast.
#[derive(Clone, Debug, PartialEq, Eq)]
pub struct ForecastParams {
    pub location: String,
    /// How many days to show: one to three, three when absent.
    pub days: Option<u8>,
}

/// The schema of [`LocationParams`].
pub open spec fn location_schema() -> Seq<FieldView> {
    seq![
        required_field(
            "location"@,
            Primitive::Text,
            "Location to get weather for (city name, zip code, or 'lat,lon')"@,
        ),
    ]
}

/// The schema of [`ForecastParams`].
pub open spec fn forecast_schema() -> Seq<FieldView> {
    seq![
        required_field("location"@, Primitive::Text, "Location to get forecast for"@),
        optional_field("days"@, Primitive::Unsigned { max: 255 }, "Number of days (1-3, default 3)"@),
    ]
}

/// The day count that typed arguments hold: none where none is given, and
/// none where it is no number that the field can hold.
pub open spec fn days_argument(args: Seq<(Seq<char>, Option<ValueView>)>) -> Option<u8> {
    match unsigned_argument(args, "days"@) {
        Some(n) => if n <= 255 {
            Some(n as u8)
        } else {
            None
        },
        None => None,
    }
}

impl LocationParams {
    /// The fields that the request for the current weather takes.
    pub fn schema() -> (schema: Schema)
        ensures
            schema@ == location_schema(),
    {
        Schema::single(
            FieldSpec::required(
                "location",
                Primitive::Text,
                "Location to get weather for (city name, zip code, or 'lat,lon')",
            ),
        )
    }

    /// Reads the parameters from typed arguments; there are none unless the
    /// location is given as text.
    pub fn from_arguments(args: &Arguments) -> (params: Option<LocationParams>)
        ensures
            match text_argument(args@, "location"@) {
                Some(t) => params is Some && params->0.location@ == t,
                None => params is None,
            },
    {
        match args.text("location") {
            Some(t) => Some(LocationParams { location: t.clone() }),
            None => None,
        }
    }
}

impl ForecastParams {
    /// The fields that the request for a forecast takes.
    pub fn schema() -> (schema: Schema)
        ensures
            schema@ == forecast_schema(),
    {
        proof {
            reveal_strlit("location");
            reveal_strlit("days");
            assert("location"@.len() != "days"@.len());
        }
        Schema::pair(
            FieldSpec::required("location", Primitive::Text, "Location to get forecast for"),
            FieldSpec::optional(
                "days",
                Primitive::Unsigned { max: 255 },
                "Number of days (1-3, default 3)",
            ),
        ).unwrap()
    }

    /// Reads the parameters from typed arguments; there are none unless the
    /// location is given as text. A day count is read if it is given as a
    /// number that the field can hold.
    pub fn from_arguments(args: &Arguments) -> (params: Option<ForecastParams>)
        ensures
            match text_argument(args@, "location"@) {
                Some(t) => params is Some && params->0.location@ == t && params->0.days
                    == days_argument(args@),
                None => params is None,
            },
    {
        match args.text("location") {
            Some(t) => {
                let days: Option<u8> = match args.unsigned("days") {
                    Some(n) => if n <= 255 {
                        Some(n as u8)
                    } else {
                        None
                    },
                    None => None,
                };
                Some(ForecastParams { location: t.clone(), days })
            },
            None => None,
        }
    }
}

/// The fewest days a forecast shows.
pub const MIN_FORECAST_DAYS: u8 = 1;

/// The most days a forecast shows, and how many it shows when not told.
pub const MAX_FORECAST_DAYS: u8 = 3;

/// Of the points of a day, each how-manieth is shown.
pub const HOURLY_STRIDE: usize = 3;

/// Whether a byte stands for itself in a percent-encoded text: letters,
/// digits, and `-`, `.`, `_`, `~`.
pub open spec fn is_unreserved(b: u8) -> bool {
    (0x30 <= b <= 0x39) || (0x41 <= b <= 0x5a) || (0x61 <= b <= 0x7a) || b == 0x2d || b == 0x2e
        || b == 0x5f || b == 0x7e
}

/// The upper-case hexadecimal digit for a number below sixteen.
pub open spec fn upper_hex_digit(d: nat) -> char {
    if d < 10 {
        (0x30 + d) as u8 as char
    } else {
        (0x41 + d - 10) as u8 as char
    }
}

/// One byte, percent-encoded.
pub open spec fn percent_encoded_byte(b: u8) -> Seq<char> {
    if is_unreserved(b) {
        seq![b as char]
    } else {
        seq!['%', upper_hex_digit((b / 16) as nat), upper_hex_digit((b % 16) as nat)]
    }
}

/// A run of bytes, percent-encoded byte by byte.
pub open spec fn percent_encoded(bytes: Seq<u8>) -> Seq<char>
    decreases bytes.len(),
{
    if bytes.len() == 0 {
        Seq::empty()
    } else {
        percent_encoded(bytes.drop_last()) + percent_encoded_byte(bytes.last())
    }
}

/// Calls `urlencoding::encode`, which turns every byte of the text's UTF-8
/// form into itself if it is a letter, a digit or one of `-`, `.`, `_`, `~`,
/// and otherwise into a percent sign and the byte's two upper-case
/// hexadecimal digits.
#[verifier::external_body]
fn url_encode(s: &str) -> (encoded: String)
    ensures
        encoded@ == percent_encoded(vstd::utf8::encode_utf8(s@)),
{
    urlencoding::encode(s).into_owned()
}

/// The address from which the weather of a location is fetched.
pub open spec fn request_url_text(location: Seq<char>) -> Seq<char> {
    "https://wttr.in/"@ + percent_encoded(vstd::utf8::encode_utf8(location)) + "?format=j1"@
}

/// The value of the first name, or a placeholder when there is none.
pub open spec fn first_area(names: Seq<AreaValue>, placeholder: Seq<char>) -> Seq<char> {
    if names.len() > 0 {
        names[0].value@
    } else {
        placeholder
    }
}

/// The first description, or a placeholder when there is none.
pub open spec fn first_desc(descs: Seq<WeatherDesc>, placeholder: Seq<char>) -> Seq<char> {
    if descs.len() > 0 {
        descs[0].value@
    } else {
        placeholder
    }
}

/// The place a report is about: the nearest area's name and region where
/// the service names one, the location as asked for otherwise.
pub open spec fn area_text(areas: Seq<NearestArea>, location: Seq<char>) -> Seq<char> {
    if areas.len() > 0 {
        first_area(areas[0].areaName@, "Unknown"@) + ", "@ + first_area(areas[0].region@, ""@)
    } else {
        location
    }
}

/// The lines about temperature and humidity.
pub open spec fn temperature_lines(c: CurrentCondition) -> Seq<char> {
    "Temperature: "@ + c.temp_F@ + "°F / "@ + c.temp_C@ + "°C\nFeels like: "@ + c.feels_like_f@
        + "°F / "@ + c.feels_like_c@ + "°C\nHumidity: "@ + c.humidity@ + "%\n"@
}

/// The lines about wind, visibility, pressure and UV index.
pub open spec fn air_lines(c: CurrentCondition) -> Seq<char> {
    "Wind: "@ + c.windspeedMiles@ + " mph "@ + c.winddir16Point@ + " ("@ + c.windspeedKmph@
        + ")\nVisibility: "@ + c.visibility@ + " miles\nPressure: "@ + c.pressure@
        + " mb\nUV Index: "@ + c.uvIndex@
}

/// The report of the current conditions at a place.
pub open spec fn conditions_report(area: Seq<char>, c: CurrentCondition) -> Seq<char> {
    "Weather for "@ + area + ":\nConditions: "@ + first_desc(c.weatherDesc@, "Unknown"@) + "\n"@
        + temperature_lines(c) + air_lines(c)
}

/// What is reported of the current weather: the report for the first
/// condition the service gave, or that it gave none.
pub open spec fn weather_outcome(data: WttrResponse, location: Seq<char>) -> Result<
    Seq<char>,
    Seq<char>,
> {
    if data.current_condition@.len() == 0 {
        Err("No current conditions"@)
    } else {
        Ok(conditions_report(area_text(data.nearest_area@, location), data.current_condition@[0]))
    }
}

/// How many days a forecast shows: as many as asked for, but no fewer than
/// one and no more than three; three when nothing is asked.
pub open spec fn forecast_days(requested: Option<u8>) -> nat {
    match requested {
        None => MAX_FORECAST_DAYS as nat,
        Some(d) => if d < MIN_FORECAST_DAYS {
            MIN_FORECAST_DAYS as nat
        } else if d > MAX_FORECAST_DAYS {
            MAX_FORECAST_DAYS as nat
        } else {
            d as nat
        },
    }
}

/// Every third point of a day, beginning with the first.
pub open spec fn sampled(hours: Seq<HourlyForecast>) -> Seq<HourlyForecast> {
    Seq::new(
        ((hours.len() + HOURLY_STRIDE - 1) / HOURLY_STRIDE as int) as nat,
        |k: int| hours[HOURLY_STRIDE * k],
    )
}

/// The hour of a point of the day: its time divided by a hundred, and zero
/// where the time is not a number.
pub open spec fn hour_of(time: Seq<char>) -> nat {
    match parsed_u32(time) {
        Some(t) => (t / 100) as nat,
        None => 0,
    }
}

/// The line of one point of a day.
pub open spec fn hour_line(h: HourlyForecast) -> Seq<char> {
    "  "@ + zero_padded(decimal(hour_of(h.time@)), 2) + ":00 - "@ + h.tempF@ + "°F, "@
        + first_desc(h.weatherDesc@, "?"@) + ", "@ + h.chanceofrain@ + "% rain\n"@
}

/// The lines of the given points of a day.
pub open spec fn hour_lines(hours: Seq<HourlyForecast>) -> Seq<char> {
    concat_all(hours.map_values(|h: HourlyForecast| hour_line(h)))
}

/// The block of one day: its extremes, then every third of its points.
pub open spec fn day_section(day: WeatherDay) -> Seq<char> {
    day.date@ + ":\n  High: "@ + day.maxtempF@ + "°F / "@ + day.maxtempC@ + "°C | Low: "@
        + day.mintempF@ + "°F / "@ + day.mintempC@ + "°C\n"@ + hour_lines(sampled(day.hourly@))
        + "\n"@
}

/// The forecast report: a block for each of the first days.
pub open spec fn forecast_report(data: WttrResponse, location: Seq<char>, requested: Option<u8>) -> Seq<
    char,
> {
    let days = forecast_days(requested);
    let shown = if days <= data.weather@.len() {
        days
    } else {
        data.weather@.len()
    };
    "Forecast for "@ + area_text(data.nearest_area@, location) + " ("@ + decimal(days)
        + " days):\n\n"@ + concat_all(
        data.weather@.take(shown as int).map_values(|d: WeatherDay| day_section(d)),
    )
}

/// Computes [`forecast_days`].
pub fn clamp_days(requested: Option<u8>) -> (days: u8)
    ensures
        days == forecast_days(requested),
        MIN_FORECAST_DAYS <= days <= MAX_FORECAST_DAYS,
{
    match requested {
        None => MAX_FORECAST_DAYS,
        Some(d) => if d < MIN_FORECAST_DAYS {
            MIN_FORECAST_DAYS
        } else if d > MAX_FORECAST_DAYS {
            MAX_FORECAST_DAYS
        } else {
            d
        },
    }
}

/// Computes [`hour_of`].
pub fn hour_of_day(time: &str) -> (hour: u32)
    ensures
        hour == hour_of(time@),
{
    match parse_u32(time) {
        Some(t) => t / 100,
        None => 0,
    }
}

fn push_area(out: &mut String, areas: &Vec<NearestArea>, location: &str)
    ensures
        final(out)@ == old(out)@ + area_text(areas@, location@),
{
    let ghost before = out@;
    if areas.len() > 0 {
        let a = &areas[0];
        if a.areaName.len() > 0 {
            out.append(a.areaName[0].value.as_str());
        } else {
            out.append("Unknown");
        }
        out.append(", ");
        if a.region.len() > 0 {
            out.append(a.region[0].value.as_str());
        } else {
            out.append("");
        }
        assert(out@ =~= before + area_text(areas@, location@));
    } else {
        out.append(location);
    }
}

fn push_first_desc(out: &mut String, descs: &Vec<WeatherDesc>, placeholder: &str)
    ensures
        final(out)@ == old(out)@ + first_desc(descs@, placeholder@),
{
    if descs.len() > 0 {
        out.append(descs[0].value.as_str());
    } else {
        out.append(placeholder);
    }
}

fn push_temperature_lines(out: &mut String, c: &CurrentCondition)
    ensures
        final(out)@ == old(out)@ + temperature_lines(*c),
{
    let ghost before = out@;
    out.append("Temperature: ");
    out.append(c.temp_F.as_str());
    out.append("°F / ");
    out.append(c.temp_C.as_str());
    out.append("°C\nFeels like: ");
    out.append(c.feels_like_f.as_str());
    out.append("°F / ");
    out.append(c.feels_like_c.as_str());
    out.append("°C\nHumidity: ");
    out.append(c.humidity.as_str());
    out.append("%\n");
    assert(out@ =~= before + temperature_lines(*c));
}

fn push_air_lines(out: &mut String, c: &CurrentCondition)
    ensures
        final(out)@ == old(out)@ + air_lines(*c),
{
    let ghost before = out@;
    out.append("Wind: ");
    out.append(c.windspeedMiles.as_str());
    out.append(" mph ");
    out.append(c.winddir16Point.as_str());
    out.append(" (");
    out.append(c.windspeedKmph.as_str());
    out.append(")\nVisibility: ");
    out.append(c.visibility.as_str());
    out.append(" miles\nPressure: ");
    out.append(c.pressure.as_str());
    out.append(" mb\nUV Index: ");
    out.append(c.uvIndex.as_str());
    assert(out@ =~= before + air_lines(*c));
}

fn push_hour_line(out: &mut String, h: &HourlyForecast)
    ensures
        final(out)@ == old(out)@ + hour_line(*h),
{
    let ghost before = out@;
    out.append("  ");
    let hour = decimal_string(hour_of_day(h.time.as_str()) as u64);
    push_zero_padded(out, hour.as_str(), 2);
    out.append(":00 - ");
    out.append(h.tempF.as_str());
    out.append("°F, ");
    push_first_desc(out, &h.weatherDesc, "?");
    out.append(", ");
    out.append(h.chanceofrain.as_str());
    out.append("% rain\n");
    assert(out@ =~= before + hour_line(*h));
}

fn push_sampled_hours(out: &mut String, hours: &Vec<HourlyForecast>)
    ensures
        final(out)@ == old(out)@ + hour_lines(sampled(hours@)),
{
    let ghost before = out@;
    let ghost line = |h: HourlyForecast| hour_line(h);
    let ghost picked = sampled(hours@);
    let n = hours.len();
    let mut i: usize = 0;
    let mut k: usize = 0;
    assert(picked.take(0).map_values(line) =~= Seq::<Seq<char>>::empty());
    assert(out@ =~= before + hour_lines(picked.take(0)));
    while i < n
        invariant
            n == hours.len(),
            picked == sampled(hours@),
            line == |h: HourlyForecast| hour_line(h),
            i <= n,
            i < n ==> i == HOURLY_STRIDE * k,
            k <= picked.len(),
            i >= n ==> k == picked.len(),
            out@ == before + hour_lines(picked.take(k as int)),
        decreases n - i,
    {
        assert(k < picked.len());
        assert(picked[k as int] == hours@[i as int]);
        push_hour_line(out, &hours[i]);
        proof {
            let done = picked.take(k as int).map_values(line);
            assert(picked.take(k + 1).map_values(line) =~= done.push(hour_line(hours@[i as int])));
            lemma_concat_all_push(done, hour_line(hours@[i as int]));
            assert(out@ =~= before + hour_lines(picked.take(k + 1)));
        }
        k += 1;
        if n - i <= HOURLY_STRIDE {
            i = n;
        } else {
            i += HOURLY_STRIDE;
        }
    }
    assert(picked.take(k as int) =~= picked);
}

fn push_day_section(out: &mut String, day: &WeatherDay)
    ensures
        final(out)@ == old(out)@ + day_section(*day),
{
    let ghost before = out@;
    out.append(day.date.as_str());
    out.append(":\n  High: ");
    out.append(day.maxtempF.as_str());
    out.append("°F / ");
    out.append(day.maxtempC.as_str());
    out.append("°C | Low: ");
    out.append(day.mintempF.as_str());
    out.append("°F / ");
    out.append(day.mintempC.as_str());
    out.append("°C\n");
    push_sampled_hours(out, &day.hourly);
    out.append("\n");
    assert(out@ =~= before + day_section(*day));
}

/// The report of the current conditions, from the service's answer for
/// the location asked for.
pub fn build_weather_report(params: &LocationParams, data: &WttrResponse) -> (report: Result<
    String,
    String,
>)
    ensures
        match weather_outcome(*data, params.location@) {
            Ok(text) => report is Ok && report->Ok_0@ == text,
            Err(reason) => report is Err && report->Err_0@ == reason,
        },
{
    if data.current_condition.len() == 0 {
        return Err(String::from_str("No current conditions"));
    }
    let current = &data.current_condition[0];
    let mut out = String::from_str("Weather for ");
    push_area(&mut out, &data.nearest_area, params.location.as_str());
    out.append(":\nConditions: ");
    push_first_desc(&mut out, &current.weatherDesc, "Unknown");
    out.append("\n");
    push_temperature_lines(&mut out, current);
    push_air_lines(&mut out, current);
    assert(out@ =~= conditions_report(
        area_text(data.nearest_area@, params.location@),
        *current,
    ));
    Ok(out)
}

/// The forecast for the coming days, from the service's answer for the
/// location asked for.
pub fn build_forecast_report(params: &ForecastParams, data: &WttrResponse) -> (report: String)
    ensures
        report@ == forecast_report(*data, params.location@, params.days),
{
    let days = clamp_days(params.days) as usize;
    let shown: usize = if days <= data.weather.len() {
        days
    } else {
        data.weather.len()
    };
    let mut out = String::from_str("Forecast for ");
    push_area(&mut out, &data.nearest_area, params.location.as_str());
    out.append(" (");
    push_decimal(&mut out, days as u64);
    out.append(" days):\n\n");
    let ghost before = out@;
    let ghost section = |d: WeatherDay| day_section(d);
    let mut i: usize = 0;
    assert(data.weather@.take(0).map_values(section) =~= Seq::<Seq<char>>::empty());
    assert(out@ =~= before + concat_all(data.weather@.take(0).map_values(section)));
    while i < shown
        invariant
            i <= shown <= data.weather.len(),
            section == |d: WeatherDay| day_section(d),
            out@ == before + concat_all(data.weather@.take(i as int).map_values(section)),
        decreases shown - i,
    {
        push_day_section(&mut out, &data.weather[i]);
        proof {
            let done = data.weather@.take(i as int).map_values(section);
            assert(data.weather@.take(i + 1).map_values(section) =~= done.push(
                day_section(data.weather@[i as int]),
            ));
            lemma_concat_all_push(done, day_section(data.weather@[i as int]));
        }
        i += 1;
    }
    assert(out@ =~= forecast_report(*data, params.location@, params.days));
    out
}

/// The tools of the weather server, in the order in which it lists them.
pub open spec fn weather_tools() -> Seq<Tool> {
    seq![Tool::Weather, Tool::Forecast]
}

/// The server of the weather tools.
#[derive(Debug)]
pub struct WeatherServer {
    /// The tools of this server.
    pub tool_router: Registry<Tool>,
}

impl Default for WeatherServer {
    fn default() -> (server: WeatherServer)
        ensures
            server.tool_router.handlers() == weather_tools(),
            server.tool_router.descriptors() == tool_descriptors(weather_tools()),
    {
        WeatherServer::new()
    }
}

impl WeatherServer {
    /// The server with its tools registered.
    pub fn new() -> (server: WeatherServer)
        ensures
            server.tool_router.handlers() == weather_tools(),
            server.tool_router.descriptors() == tool_descriptors(weather_tools()),
    {
        let tools = vec![Tool::Weather, Tool::Forecast];
        assert(tools@ =~= weather_tools());
        WeatherServer { tool_router: registry_of(&tools).unwrap() }
    }

    /// What the server says of itself.
    pub fn instructions(&self) -> (text: &'static str)
        ensures
            text@ == "Weather information server using wttr.in"@,
    {
        "Weather information server using wttr.in"
    }

    /// The descriptors of the server's tools, in order.
    pub fn list_tools(&self) -> (listed: Vec<&ToolDescriptor>)
        ensures
            listed@.len() == self.tool_router.descriptors().len(),
            forall|i: int|
                0 <= i < listed@.len() ==> (#[trigger] listed@[i])@
                    == self.tool_router.descriptors()[i],
            tool_names_distinct(self.tool_router.descriptors()),
    {
        self.tool_router.list()
    }

    /// Handles a call of one of the server's tools by name, running the
    /// tool through `run`.
    pub fn call_tool<F>(&self, run: &F, name: &str, raw: &RawArguments) -> (outcome: ToolOutcome) where
        F: Fn(&Tool, &Arguments) -> Result<String, String>,

        requires
            forall|tool: &Tool, args: &Arguments|
                self.tool_router.handlers().contains(*tool) ==> call_requires(run, (tool, args)),
        ensures
            match planned(self.tool_router.descriptors(), name@, raw@) {
                PlanView::Reject(rejection) => outcome@ == rejection,
                PlanView::Invoke(at, typed) => exists|args: Arguments, result: Result<String, String>|
                    args@ == typed && call_ensures(
                        run,
                        (&self.tool_router.handlers()[at], &args),
                        result,
                    ) && outcome@ == concluded(result_text(result)),
            },
            !has_tool(self.tool_router.descriptors(), name@) ==> outcome@ == unknown_tool(name@),
    {
        dispatch(&self.tool_router, run, name, raw)
    }
}

impl WeatherServer {
    /// The address from which the weather of a location is fetched.
    pub fn request_url(location: &str) -> (url: String)
        ensures
            url@ == request_url_text(location@),
    {
        let mut url = String::from_str("https://wttr.in/");
        let encoded = url_encode(location);
        url.append(encoded.as_str());
        url.append("?format=j1");
        url
    }

    /// The report of the current conditions, from the service's answer for
    /// the location asked for.
    pub fn get_weather(&self, params: &LocationParams, data: &WttrResponse) -> (report: Result<
        String,
        String,
    >)
        ensures
            match weather_outcome(*data, params.location@) {
                Ok(text) => report is Ok && report->Ok_0@ == text,
                Err(reason) => report is Err && report->Err_0@ == reason,
            },
    {
        build_weather_report(params, data)
    }

    /// The forecast for the coming days, from the service's answer for the
    /// location asked for.
    pub fn get_forecast(&self, params: &ForecastParams, data: &WttrResponse) -> (report: String)
        ensures
            report@ == forecast_report(*data, params.location@, params.days),
    {
        build_forecast_report(params, data)
    }
}

} // verus!
