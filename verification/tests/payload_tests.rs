use gosquared_component::dict::{find_last, Dict, StringMap};
use gosquared_component::event::{
    Campaign, Client, Context, Data, Event, HttpMethod, PageData, TrackData, UserData,
};
use gosquared_component::gosquared::{
    GoSquaredIdentifyPayload, GoSquaredPageviewPayload, GoSquaredTrackPayload,
};
use gosquared_component::helpers::{campaign_from_event, screen_from_event};
use gosquared_component::{event_data_from, page, track_payload};

fn pairs(list: &[(&str, &str)]) -> Dict {
    list.iter().map(|(k, v)| (k.to_string(), v.to_string())).collect()
}

fn page_data() -> PageData {
    PageData {
        url: "https://x.test/".to_string(),
        title: "Home".to_string(),
        referrer: "https://ref.test/".to_string(),
        properties: Vec::new(),
    }
}

fn user_data(properties: Dict) -> UserData {
    UserData {
        user_id: "u1".to_string(),
        anonymous_id: "v1".to_string(),
        properties,
    }
}

fn event_with(data: Data, properties: Dict) -> Event {
    Event {
        timestamp: 1_700_000_000,
        data,
        context: Context {
            page: page_data(),
            user: user_data(properties),
            client: Client {
                ip: "203.0.113.7".to_string(),
                user_agent: "agent/1.0".to_string(),
                locale: "fr-CA".to_string(),
                screen_height: 1080,
                screen_width: 1920,
                screen_density: 2.0f32.to_bits(),
            },
            campaign: Campaign {
                name: "spring".to_string(),
                source: "news".to_string(),
                medium: "".to_string(),
                content: " ".to_string(),
                term: "shoes".to_string(),
            },
        },
    }
}

fn text(value: &Option<String>) -> Option<&str> {
    value.as_deref()
}

#[test]
fn pageview_payload_from_an_event() {
    let event = event_with(Data::Page(page_data()), Vec::new());
    let payload = GoSquaredPageviewPayload::new(&event);
    assert_eq!(payload.visitor_id, "v1");
    assert_eq!(text(&payload.timestamp), Some("1700000000"));
    assert_eq!(payload.page.url, "https://x.test/");
    assert_eq!(payload.page.title, "Home");
    assert_eq!(payload.page.previous, 0);
    assert_eq!(payload.page.index, 0);
    assert_eq!(text(&payload.referrer), Some("https://ref.test/"));
    assert_eq!(text(&payload.ip), Some("203.0.113.7"));
    assert_eq!(text(&payload.language), Some("fr"));
    assert_eq!(text(&payload.user_agent), Some("agent/1.0"));
    assert_eq!(payload.returning, None);
    assert_eq!(payload.character_set, None);
    let screen = payload.screen.unwrap();
    assert_eq!(screen.height, 1080);
    assert_eq!(screen.width, 1920);
    assert_eq!(screen.pixel_ratio.map(f32::from_bits), Some(2.0f32));
    assert_eq!(screen.depth, None);
    let campaign = payload.campaign.unwrap();
    assert_eq!(campaign.name, "spring");
    assert_eq!(campaign.source, "news");
    assert_eq!(campaign.medium, "");
    assert_eq!(campaign.content, " ");
    assert_eq!(campaign.term, "shoes");
}

#[test]
fn pageview_end_to_end() {
    let event = event_with(Data::Page(page_data()), Vec::new());
    let payload = GoSquaredPageviewPayload::new(&event);

    let mut page_json = serde_json::Map::new();
    page_json.insert("url".to_string(), serde_json::Value::String(payload.page.url.clone()));
    page_json.insert("title".to_string(), serde_json::Value::String(payload.page.title.clone()));
    let mut body = serde_json::Map::new();
    body.insert(
        "visitor_id".to_string(),
        serde_json::Value::String(payload.visitor_id.clone()),
    );
    if let Some(language) = &payload.language {
        body.insert("language".to_string(), serde_json::Value::String(language.clone()));
    }
    if let Some(returning) = payload.returning {
        body.insert("returning".to_string(), serde_json::Value::Bool(returning));
    }
    body.insert("page".to_string(), serde_json::Value::Object(page_json));
    let json = serde_json::to_string(&serde_json::Value::Object(body)).map_err(|e| e.to_string());

    let request = page(json, pairs(&[("api_key", "k1"), ("site_token", "s1")])).unwrap();
    assert_eq!(request.method, HttpMethod::Post);
    assert!(request.url.ends_with("?api_key=k1&site_token=s1"));
    assert!(request.body.contains("\"visitor_id\":\"v1\""));
    assert!(request.body.contains("\"language\":\"fr\""));
    assert!(request.body.contains("\"url\":\"https://x.test/\""));
    assert!(request.body.contains("\"title\":\"Home\""));
    assert!(!request.body.contains("\"returning\""));
    assert!(request.forward_client_headers);
}

#[test]
fn screen_and_campaign_from_an_event() {
    let event = event_with(Data::Page(page_data()), Vec::new());
    let screen = screen_from_event(&event);
    assert_eq!(screen.height, 1080);
    assert_eq!(screen.width, 1920);
    assert_eq!(screen.pixel_ratio, Some(0x4000_0000));
    assert_eq!(screen.depth, None);
    let campaign = campaign_from_event(&event);
    assert_eq!(campaign.name, "spring");
    assert_eq!(campaign.source, "news");
    assert_eq!(campaign.medium, "");
    assert_eq!(campaign.content, " ");
    assert_eq!(campaign.term, "shoes");
}

#[test]
fn track_end_to_end() {
    let data = Data::Track(TrackData {
        name: "Signed Up".to_string(),
        properties: pairs(&[("plan name", "pro")]),
    });
    let event = event_with(data, Vec::new());
    let payload = track_payload(&event);
    assert_eq!(payload.event.name, "Signed Up");
    assert_eq!(
        payload.event.data.entries(),
        &pairs(&[("plan_name", "pro")])
    );
}

#[test]
fn track_payload_from_an_event() {
    let data = Data::Track(TrackData {
        name: "Signed Up".to_string(),
        properties: pairs(&[("plan name", "pro"), ("empty", ""), ("blank", " \t"), ("a b c", " x ")]),
    });
    let event = event_with(data, Vec::new());
    let payload = track_payload(&event);
    assert_eq!(payload.event.name, "Signed Up");
    assert_eq!(payload.event.data.len(), 2);
    assert_eq!(payload.event.data.get("plan_name"), Some(&"pro".to_string()));
    assert_eq!(payload.event.data.get("a_b_c"), Some(&" x ".to_string()));
    assert!(!payload.event.data.contains_key("empty"));
    assert!(!payload.event.data.contains_key("blank"));
    assert!(!payload.event.data.contains_key("plan name"));
    assert_eq!(text(&payload.timestamp), Some("1700000000"));
    assert_eq!(text(&payload.person_id), Some("u1"));
    assert_eq!(text(&payload.visitor_id), Some("v1"));
    let page = payload.page.unwrap();
    assert_eq!(page.url, "https://x.test/");
    assert_eq!(page.title, "Home");
    assert_eq!(page.previous, 0);
    assert_eq!(page.index, 0);
    assert_eq!(text(&payload.referrer), Some("https://ref.test/"));
    assert_eq!(text(&payload.ip), Some("203.0.113.7"));
    assert_eq!(text(&payload.language), Some("fr"));
    assert_eq!(text(&payload.user_agent), Some("agent/1.0"));
    assert_eq!(payload.screen.unwrap().pixel_ratio.map(f32::from_bits), Some(2.0f32));
    assert_eq!(payload.campaign.unwrap().name, "spring");
    assert_eq!(payload.character_set, None);
    assert_eq!(payload.returning, None);
    assert_eq!(payload.location, None);
    assert_eq!(payload.last_pageview, None);
    assert_eq!(payload.total, None);
}

#[test]
fn track_payload_of_an_event_that_is_no_track() {
    let event = event_with(Data::Page(page_data()), Vec::new());
    let payload = track_payload(&event);
    assert_eq!(payload.event.name, "track");
    assert!(payload.event.data.is_empty());
    let user = event_with(Data::User(user_data(pairs(&[("a", "b")]))), Vec::new());
    let payload = track_payload(&user);
    assert_eq!(payload.event.name, "track");
    assert!(payload.event.data.is_empty());
}

#[test]
fn track_payload_takes_name_and_properties_as_given() {
    let event = event_with(Data::Page(page_data()), Vec::new());
    let mut properties = StringMap::new();
    properties.insert("plan name".to_string(), "".to_string());
    let payload = GoSquaredTrackPayload::new(&event, "".to_string(), properties);
    assert_eq!(payload.event.name, "");
    assert_eq!(payload.event.data.get("plan name"), Some(&"".to_string()));
}

#[test]
fn event_data_keeps_the_later_of_two_keys_that_meet() {
    let data = event_data_from(&pairs(&[("a b", "1"), ("a_b", "2"), ("c", "3"), ("a b", " ")]));
    assert_eq!(data.len(), 2);
    assert_eq!(data.get("a_b"), Some(&"2".to_string()));
    assert_eq!(data.get("c"), Some(&"3".to_string()));
    assert_eq!(data.entries(), &pairs(&[("a_b", "2"), ("c", "3")]));
}

#[test]
fn identify_end_to_end() {
    let properties = pairs(&[("email", "a@b.com"), ("company.size", "50"), ("foo", "bar")]);
    let event = event_with(Data::User(user_data(properties.clone())), properties);
    let payload = GoSquaredIdentifyPayload::new(&event);
    assert_eq!(payload.person_id, "u1");
    assert_eq!(text(&payload.visitor_id), Some("v1"));
    let told = payload.properties.unwrap();
    assert_eq!(text(&told.email), Some("a@b.com"));
    let company = told.company.unwrap();
    assert_eq!(company.size, Some(50));
    assert_eq!(company.name, None);
    assert_eq!(company.industry, None);
    assert_eq!(company.position, None);
    assert_eq!(told.custom.entries(), &pairs(&[("foo", "bar")]));
    assert_eq!(told.status, None);
    assert_eq!(told.name, None);
    assert_eq!(told.first_name, None);
    assert_eq!(told.last_name, None);
    assert_eq!(told.username, None);
    assert_eq!(told.avatar, None);
    assert_eq!(told.description, None);
    assert_eq!(told.phone, None);
    assert_eq!(told.created_at, None);
}

#[test]
fn identify_puts_every_key_in_one_place() {
    let properties = pairs(&[
        ("email", "a@b.com"),
        ("status", "active"),
        ("name", "Ada Lovelace"),
        ("first_name", "Ada"),
        ("last_name", "Lovelace"),
        ("username", "ada"),
        ("avatar", "https://img.test/a.png"),
        ("description", ""),
        ("phone", "+44 1"),
        ("created_at", "1815-12-10"),
        ("company.name", "Analytical"),
        ("company.industry", "Engines"),
        ("company.position", "Programmer"),
        ("company.size", "3"),
        ("Email", "other"),
        ("company", "x"),
        ("company.", "y"),
        ("favourite colour", " "),
    ]);
    let event = event_with(Data::User(user_data(Vec::new())), properties);
    let told = GoSquaredIdentifyPayload::new(&event).properties.unwrap();
    assert_eq!(text(&told.email), Some("a@b.com"));
    assert_eq!(text(&told.status), Some("active"));
    assert_eq!(text(&told.name), Some("Ada Lovelace"));
    assert_eq!(text(&told.first_name), Some("Ada"));
    assert_eq!(text(&told.last_name), Some("Lovelace"));
    assert_eq!(text(&told.username), Some("ada"));
    assert_eq!(text(&told.avatar), Some("https://img.test/a.png"));
    assert_eq!(text(&told.description), Some(""));
    assert_eq!(text(&told.phone), Some("+44 1"));
    assert_eq!(text(&told.created_at), Some("1815-12-10"));
    let company = told.company.unwrap();
    assert_eq!(text(&company.name), Some("Analytical"));
    assert_eq!(text(&company.industry), Some("Engines"));
    assert_eq!(text(&company.position), Some("Programmer"));
    assert_eq!(company.size, Some(3));
    assert_eq!(
        told.custom.entries(),
        &pairs(&[("Email", "other"), ("company", "x"), ("company.", "y"), ("favourite colour", " ")])
    );
    for key in [
        "email", "status", "name", "first_name", "last_name", "username", "avatar",
        "description", "phone", "created_at", "company.name", "company.industry",
        "company.position", "company.size",
    ] {
        assert!(!told.custom.contains_key(key), "{}", key);
    }
}

#[test]
fn identify_leaves_out_a_size_that_is_no_number() {
    for size in ["", "big", "-1", "1.5", " 5", "4294967296"] {
        let event = event_with(Data::User(user_data(Vec::new())), pairs(&[("company.size", size)]));
        let told = GoSquaredIdentifyPayload::new(&event).properties.unwrap();
        assert!(told.company.is_none(), "{:?}", size);
        assert!(told.custom.is_empty(), "{:?}", size);
    }
    let kept = event_with(
        Data::User(user_data(Vec::new())),
        pairs(&[("company.size", "12"), ("company.size", "dozen")]),
    );
    let company = GoSquaredIdentifyPayload::new(&kept).properties.unwrap().company.unwrap();
    assert_eq!(company.size, Some(12));
}

#[test]
fn identify_company_is_there_where_a_field_of_it_is() {
    let none = event_with(Data::User(user_data(Vec::new())), pairs(&[("email", "a@b.com")]));
    assert!(GoSquaredIdentifyPayload::new(&none).properties.unwrap().company.is_none());

    for (key, value) in [
        ("company.name", "Acme"),
        ("company.name", ""),
        ("company.industry", "Tools"),
        ("company.position", "CEO"),
        ("company.size", "0"),
    ] {
        let event = event_with(Data::User(user_data(Vec::new())), pairs(&[(key, value)]));
        let told = GoSquaredIdentifyPayload::new(&event).properties.unwrap();
        assert!(told.company.is_some(), "{} {:?}", key, value);
    }
}

#[test]
fn identify_without_properties() {
    let event = event_with(Data::User(user_data(Vec::new())), Vec::new());
    let payload = GoSquaredIdentifyPayload::new(&event);
    assert_eq!(payload.person_id, "u1");
    assert_eq!(text(&payload.visitor_id), Some("v1"));
    let told = payload.properties.unwrap();
    assert!(told.email.is_none());
    assert!(told.company.is_none());
    assert!(told.custom.is_empty());
}

#[test]
fn identify_reads_the_properties_of_the_context() {
    let event = event_with(
        Data::User(user_data(pairs(&[("email", "data@x.test")]))),
        pairs(&[("email", "context@x.test")]),
    );
    let told = GoSquaredIdentifyPayload::new(&event).properties.unwrap();
    assert_eq!(text(&told.email), Some("context@x.test"));
}

#[test]
fn identify_last_of_a_repeated_key_counts() {
    let event = event_with(
        Data::User(user_data(Vec::new())),
        pairs(&[("email", "one"), ("foo", "1"), ("email", "two"), ("foo", "2")]),
    );
    let told = GoSquaredIdentifyPayload::new(&event).properties.unwrap();
    assert_eq!(text(&told.email), Some("two"));
    assert_eq!(told.custom.entries(), &pairs(&[("foo", "2")]));
}

#[test]
fn string_map_keeps_one_value_for_each_key() {
    let mut map = StringMap::new();
    assert!(map.is_empty());
    assert_eq!(map.len(), 0);
    assert_eq!(map.get("a"), None);
    map.insert("a".to_string(), "1".to_string());
    map.insert("b".to_string(), "2".to_string());
    map.insert("a".to_string(), "3".to_string());
    assert!(!map.is_empty());
    assert_eq!(map.len(), 2);
    assert_eq!(map.get("a"), Some(&"3".to_string()));
    assert_eq!(map.get("b"), Some(&"2".to_string()));
    assert!(map.contains_key("a"));
    assert!(!map.contains_key("c"));
    assert_eq!(map.entries(), &pairs(&[("a", "3"), ("b", "2")]));
}

#[test]
fn find_last_gives_the_last_pair_of_a_key() {
    let dict = pairs(&[("a", "1"), ("b", "2"), ("a", "3")]);
    assert_eq!(find_last(&dict, "a"), Some(2));
    assert_eq!(find_last(&dict, "b"), Some(1));
    assert_eq!(find_last(&dict, "c"), None);
    assert_eq!(find_last(&Vec::new(), "a"), None);
}
