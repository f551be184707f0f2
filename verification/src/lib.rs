//! Turns analytics events into requests to the GoSquared tracking API: a
//! payload for each kind of event, the credentials that the API asks for, and
//! the request that carries both.

use crate::dict::{find_last, lookup, Dict, Pairs, StringMap};
use crate::event::{Data, EdgeeRequest, Event, HttpMethod, RequestView};
use crate::gosquared::{track_of, GoSquaredTrackPayload};
use crate::helpers::insert_if_nonempty;
use crate::text::{blank, is_blank, replaced, underscored};
use vstd::prelude::*;
use vstd::string::*;

pub mod dict;
pub mod event;
pub mod gosquared;
pub mod helpers;
pub mod text;

verus! {

/// Where page views are sent.
pub const PAGEVIEW_ENDPOINT: &'static str = "https://api.gosquared.com/tracking/v1/pageview";

/// Where custom events are sent.
pub const EVENT_ENDPOINT: &'static str = "https://api.gosquared.com/tracking/v1/event";

/// Where the identification of a person is sent.
pub const IDENTIFY_ENDPOINT: &'static str = "https://api.gosquared.com/tracking/v1/identify";

/// The two credentials that address the tracking API.
#[derive(Debug)]
pub struct Settings {
    pub api_key: String,
    pub site_token: String,
}

/// What a `Settings` holds, with each text as its characters.
pub struct SettingsView {
    pub api_key: Seq<char>,
    pub site_token: Seq<char>,
}

impl View for Settings {
    type V = SettingsView;

    open spec fn view(&self) -> SettingsView {
        SettingsView { api_key: self.api_key@, site_token: self.site_token@ }
    }
}

/// A credential that the configuration lacks.
#[derive(Debug, Clone, Copy, PartialEq, Eq, Structural)]
pub enum SettingsError {
    /// No `api_key`, or a blank one.
    MissingApiKey,
    /// No `site_token`, or an empty one.
    MissingSiteToken,
}

impl SettingsError {
    /// What the error says.
    pub open spec fn text(self) -> Seq<char> {
        match self {
            SettingsError::MissingApiKey => "Missing or empty 'api_key' setting"@,
            SettingsError::MissingSiteToken => "Missing 'site_token'"@,
        }
    }

    /// What the error says.
    pub fn message(&self) -> (r: String)
        ensures
            r@ == self.text(),
    {
        match self {
            SettingsError::MissingApiKey => String::from_str("Missing or empty 'api_key' setting"),
            SettingsError::MissingSiteToken => String::from_str("Missing 'site_token'"),
        }
    }
}

/// The credentials that a configuration holds: an `api_key` that is not
/// blank and a `site_token` that is not empty. The key is looked at first.
pub open spec fn settings_of(settings: Pairs) -> Result<SettingsView, SettingsError> {
    match lookup(settings, "api_key"@) {
        Some(api_key) => if is_blank(api_key) {
            Err(SettingsError::MissingApiKey)
        } else {
            match lookup(settings, "site_token"@) {
                Some(site_token) => if site_token.len() == 0 {
                    Err(SettingsError::MissingSiteToken)
                } else {
                    Ok(SettingsView { api_key, site_token })
                },
                None => Err(SettingsError::MissingSiteToken),
            }
        },
        None => Err(SettingsError::MissingApiKey),
    }
}

/// `Ok` with the view of the settings, or the error as it is.
pub open spec fn settings_view(r: Result<Settings, SettingsError>) -> Result<
    SettingsView,
    SettingsError,
> {
    match r {
        Ok(settings) => Ok(settings@),
        Err(e) => Err(e),
    }
}

impl Settings {
    /// Reads the credentials from a configuration.
    pub fn new(settings_dict: Dict) -> (r: Result<Self, SettingsError>)
        ensures
            settings_view(r) == settings_of(settings_dict.deep_view()),
    {
        let api_key = match find_last(&settings_dict, "api_key") {
            Some(i) => settings_dict[i].1.clone(),
            None => { return Err(SettingsError::MissingApiKey); },
        };
        if blank(api_key.as_str()) {
            return Err(SettingsError::MissingApiKey);
        }
        let site_token = match find_last(&settings_dict, "site_token") {
            Some(i) => settings_dict[i].1.clone(),
            None => { return Err(SettingsError::MissingSiteToken); },
        };
        if site_token.as_str().is_empty() {
            return Err(SettingsError::MissingSiteToken);
        }
        Ok(Settings { api_key, site_token })
    }
}

/// The request that carries `body` to `endpoint` with the credentials
/// `settings`: a POST of JSON, the credentials in the query of the address,
/// the headers of the client forwarded.
pub open spec fn request_of(endpoint: Seq<char>, settings: SettingsView, body: Seq<char>)
    -> RequestView {
    RequestView {
        method: HttpMethod::Post,
        url: endpoint + "?api_key="@ + settings.api_key + "&site_token="@ + settings.site_token,
        headers: seq![("Content-Type"@, "application/json"@)],
        forward_client_headers: true,
        body,
    }
}

/// The text of an error, or nothing for a request.
pub open spec fn error_text(r: Result<EdgeeRequest, String>) -> Option<Seq<char>> {
    match r {
        Ok(_) => None,
        Err(text) => Some(text@),
    }
}

/// Makes the request that carries a payload to `endpoint`. `payload` is the
/// payload as JSON, or the text of the error with which writing it failed,
/// which is then the error of the request. The settings are read first: where
/// they lack a credential, that is the error, whatever the payload.
pub fn common(endpoint: &str, payload: Result<String, String>, settings_dict: Dict) -> (r:
    Result<EdgeeRequest, String>)
    ensures
        match settings_of(settings_dict.deep_view()) {
            Err(e) => error_text(r) == Some(e.text()),
            Ok(settings) => match payload {
                Ok(body) => r matches Ok(request) && request@ == request_of(
                    endpoint@,
                    settings,
                    body@,
                ),
                Err(text) => error_text(r) == Some(text@),
            },
        },
{
    let settings = match Settings::new(settings_dict) {
        Ok(settings) => settings,
        Err(e) => { return Err(e.message()); },
    };
    let body = match payload {
        Ok(body) => body,
        Err(text) => { return Err(text); },
    };
    let mut url = String::from_str(endpoint);
    url.append("?api_key=");
    url.append(settings.api_key.as_str());
    url.append("&site_token=");
    url.append(settings.site_token.as_str());
    let mut headers: Dict = Vec::new();
    headers.push((String::from_str("Content-Type"), String::from_str("application/json")));
    let request = EdgeeRequest {
        method: HttpMethod::Post,
        url,
        headers,
        forward_client_headers: true,
        body,
    };
    assert(request.headers.deep_view() =~= seq![("Content-Type"@, "application/json"@)]);
    Ok(request)
}

/// The data of a custom event: each property whose value is not blank, under
/// its key with an underscore for each space. Of two properties that come to
/// the same key the later one stays.
pub open spec fn event_data(properties: Pairs) -> Map<Seq<char>, Seq<char>>
    decreases properties.len(),
{
    if properties.len() == 0 {
        Map::empty()
    } else {
        let earlier = event_data(properties.drop_last());
        let (key, value) = properties.last();
        if is_blank(value) {
            earlier
        } else {
            earlier.insert(replaced(key, ' ', '_'), value)
        }
    }
}

/// Whether a property goes into the data of an event under `key`: its value
/// is not blank, and `key` is its key with an underscore for each space.
pub open spec fn sent_under(property: (Seq<char>, Seq<char>), key: Seq<char>) -> bool {
    !is_blank(property.1) && replaced(property.0, ' ', '_') == key
}

/// The data of an event hold a key exactly where some property is sent
/// under it.
pub proof fn lemma_event_data_keys(properties: Pairs, key: Seq<char>)
    ensures
        event_data(properties).contains_key(key) <==> exists|i: int|
            0 <= i < properties.len() && sent_under(#[trigger] properties[i], key),
    decreases properties.len(),
{
    if properties.len() > 0 {
        let front = properties.drop_last();
        lemma_event_data_keys(front, key);
        let last = properties[properties.len() - 1];
        if sent_under(last, key) {
        } else if event_data(front).contains_key(key) {
            let i = choose|i: int| 0 <= i < front.len() && sent_under(#[trigger] front[i], key);
            assert(properties[i] == front[i]);
        } else {
            assert forall|i: int| 0 <= i < properties.len() implies !sent_under(
                #[trigger] properties[i],
                key,
            ) by {
                if i < front.len() {
                    assert(front[i] == properties[i]);
                }
            }
        }
    }
}

/// The data of an event give a key the value of the last property that is
/// sent under it.
pub proof fn lemma_event_data_value(properties: Pairs, key: Seq<char>, i: int)
    requires
        0 <= i < properties.len(),
        sent_under(properties[i], key),
        forall|j: int| i < j < properties.len() ==> !sent_under(#[trigger] properties[j], key),
    ensures
        event_data(properties).contains_key(key),
        event_data(properties)[key] == properties[i].1,
    decreases properties.len(),
{
    if i < properties.len() - 1 {
        let front = properties.drop_last();
        assert(!sent_under(properties[properties.len() - 1], key));
        assert forall|j: int| i < j < front.len() implies !sent_under(#[trigger] front[j], key) by {
            assert(front[j] == properties[j]);
        }
        lemma_event_data_value(front, key, i);
    }
}

/// The name of the custom event that `event` carries; `track` where it
/// carries none.
pub open spec fn track_name(event: Event) -> Seq<char> {
    match event.data {
        Data::Track(data) => data.name@,
        _ => "track"@,
    }
}

/// The data of the custom event that `event` carries; none where it carries
/// no custom event.
pub open spec fn track_data(event: Event) -> Map<Seq<char>, Seq<char>> {
    match event.data {
        Data::Track(data) => event_data(data.properties.deep_view()),
        _ => Map::empty(),
    }
}

/// Gathers the data of a custom event from its properties.
pub fn event_data_from(properties: &Dict) -> (r: StringMap)
    ensures
        r@ == event_data(properties.deep_view()),
{
    let ghost all = properties.deep_view();
    let mut data = StringMap::new();
    let mut i: usize = 0;
    while i < properties.len()
        invariant
            i <= properties.len(),
            all == properties.deep_view(),
            data@ == event_data(all.take(i as int)),
        decreases properties.len() - i,
    {
        let key = underscored(properties[i].0.as_str());
        insert_if_nonempty(&mut data, key.as_str(), properties[i].1.as_str());
        assert(all.take(i + 1).drop_last() == all.take(i as int));
        i += 1;
    }
    assert(all.take(i as int) == all);
    data
}

/// Builds the payload of the custom event that `event` carries.
pub fn track_payload(event: &Event) -> (r: GoSquaredTrackPayload)
    ensures
        r@ == track_of(*event, track_name(*event), track_data(*event)),
{
    match &event.data {
        Data::Track(data) => GoSquaredTrackPayload::new(
            event,
            data.name.clone(),
            event_data_from(&data.properties),
        ),
        _ => GoSquaredTrackPayload::new(event, String::from_str("track"), StringMap::new()),
    }
}

/// Makes the request for a page view from its payload as JSON, or from the
/// text of the error with which writing the payload failed.
pub fn page(payload: Result<String, String>, settings_dict: Dict) -> (r: Result<
    EdgeeRequest,
    String,
>)
    ensures
        match settings_of(settings_dict.deep_view()) {
            Err(e) => error_text(r) == Some(e.text()),
            Ok(settings) => match payload {
                Ok(body) => r matches Ok(request) && request@ == request_of(
                    PAGEVIEW_ENDPOINT@,
                    settings,
                    body@,
                ),
                Err(text) => error_text(r) == Some(text@),
            },
        },
{
    common(PAGEVIEW_ENDPOINT, payload, settings_dict)
}

/// Makes the request for a custom event from its payload as JSON, or from
/// the text of the error with which writing the payload failed.
pub fn track(payload: Result<String, String>, settings_dict: Dict) -> (r: Result<
    EdgeeRequest,
    String,
>)
    ensures
        match settings_of(settings_dict.deep_view()) {
            Err(e) => error_text(r) == Some(e.text()),
            Ok(settings) => match payload {
                Ok(body) => r matches Ok(request) && request@ == request_of(
                    EVENT_ENDPOINT@,
                    settings,
                    body@,
                ),
                Err(text) => error_text(r) == Some(text@),
            },
        },
{
    common(EVENT_ENDPOINT, payload, settings_dict)
}

/// Makes the request that identifies a person from its payload as JSON, or
/// from the text of the error with which writing the payload failed.
pub fn user(payload: Result<String, String>, settings_dict: Dict) -> (r: Result<
    EdgeeRequest,
    String,
>)
    ensures
        match settings_of(settings_dict.deep_view()) {
            Err(e) => error_text(r) == Some(e.text()),
            Ok(settings) => match payload {
                Ok(body) => r matches Ok(request) && request@ == request_of(
                    IDENTIFY_ENDPOINT@,
                    settings,
                    body@,
                ),
                Err(text) => error_text(r) == Some(text@),
            },
        },
{
    common(IDENTIFY_ENDPOINT, payload, settings_dict)
}

} // verus!
