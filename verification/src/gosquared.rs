//! The payloads of the tracking API: one for a page view, one for a custom
//! event, one that identifies a person. A field that is `None` is absent from
//! the payload.

use crate::dict::{lemma_lookup_held, lemma_lookup_present, lookup, Pairs, StringMap};
use crate::event::Event;
use crate::helpers::{
    campaign_from_event, campaign_of, parse_language, screen_from_event, screen_of,
};
use crate::text::{before_first, i64_text, int_text, parse_u32, same_text, u32_of};
use vstd::prelude::*;
use vstd::string::*;

verus! {

/// The view of what an `Option` holds, where it holds something.
pub open spec fn opt_view<T: View>(o: Option<T>) -> Option<T::V> {
    match o {
        Some(x) => Some(x@),
        None => None,
    }
}

/// The page of a page view or of an event.
#[derive(Debug)]
pub struct PageInfo {
    pub url: String,
    pub title: String,
    pub previous: i32,
    pub index: i32,
}

impl Default for PageInfo {
    /// A page without address or title.
    fn default() -> (r: Self)
        ensures
            r@ == (PageInfoView { url: Seq::empty(), title: Seq::empty(), previous: 0, index: 0 }),
    {
        PageInfo { url: String::new(), title: String::new(), previous: 0, index: 0 }
    }
}

/// What a `PageInfo` holds, with each text as its characters.
pub struct PageInfoView {
    pub url: Seq<char>,
    pub title: Seq<char>,
    pub previous: i32,
    pub index: i32,
}

impl View for PageInfo {
    type V = PageInfoView;

    open spec fn view(&self) -> PageInfoView {
        PageInfoView {
            url: self.url@,
            title: self.title@,
            previous: self.previous,
            index: self.index,
        }
    }
}

/// The screen of the user's device. The pixel ratio and the colour depth are
/// held as the bit patterns of a single-precision and a double-precision
/// number.
#[derive(Debug, Clone, Copy, PartialEq, Eq, Structural)]
pub struct ScreenInfo {
    pub height: i32,
    pub width: i32,
    pub pixel_ratio: Option<u32>,
    pub depth: Option<u64>,
}

impl Default for ScreenInfo {
    /// A screen of which nothing is known.
    fn default() -> (r: Self)
        ensures
            r == (ScreenInfo { height: 0, width: 0, pixel_ratio: None, depth: None }),
    {
        ScreenInfo { height: 0, width: 0, pixel_ratio: None, depth: None }
    }
}

/// The campaign that brought the user. Every field is sent, blank or not.
#[derive(Debug)]
pub struct CampaignInfo {
    pub name: String,
    pub source: String,
    pub medium: String,
    pub content: String,
    pub term: String,
}

impl Default for CampaignInfo {
    /// A campaign with every field empty.
    fn default() -> (r: Self)
        ensures
            r@ == (CampaignInfoView {
                name: Seq::empty(),
                source: Seq::empty(),
                medium: Seq::empty(),
                content: Seq::empty(),
                term: Seq::empty(),
            }),
    {
        CampaignInfo {
            name: String::new(),
            source: String::new(),
            medium: String::new(),
            content: String::new(),
            term: String::new(),
        }
    }
}

/// What a `CampaignInfo` holds, with each text as its characters.
pub struct CampaignInfoView {
    pub name: Seq<char>,
    pub source: Seq<char>,
    pub medium: Seq<char>,
    pub content: Seq<char>,
    pub term: Seq<char>,
}

impl View for CampaignInfo {
    type V = CampaignInfoView;

    open spec fn view(&self) -> CampaignInfoView {
        CampaignInfoView {
            name: self.name@,
            source: self.source@,
            medium: self.medium@,
            content: self.content@,
            term: self.term@,
        }
    }
}

/// Where the user is, as far as the payload says: the offset of the local
/// time from UTC, in minutes.
#[derive(Debug, Clone, Copy, PartialEq, Eq, Structural)]
pub struct LocationInfo {
    pub timezone_offset: i32,
}

impl Default for LocationInfo {
    /// The location of UTC.
    fn default() -> (r: Self)
        ensures
            r == (LocationInfo { timezone_offset: 0 }),
    {
        LocationInfo { timezone_offset: 0 }
    }
}

/// How often the user came, and how many pages they saw.
#[derive(Debug, Clone, Copy, PartialEq, Eq, Structural)]
pub struct TotalInfo {
    pub visits: i32,
    pub pageviews: i32,
}

impl Default for TotalInfo {
    /// No visit and no page view.
    fn default() -> (r: Self)
        ensures
            r == (TotalInfo { visits: 0, pageviews: 0 }),
    {
        TotalInfo { visits: 0, pageviews: 0 }
    }
}

/// A custom event: its name and its data.
#[derive(Debug)]
pub struct GoSquaredEvent {
    pub name: String,
    pub data: StringMap,
}

impl Default for GoSquaredEvent {
    /// An event without name or data.
    fn default() -> (r: Self)
        ensures
            r@ == (EventView { name: Seq::empty(), data: Map::empty() }),
    {
        GoSquaredEvent { name: String::new(), data: StringMap::new() }
    }
}

/// What a `GoSquaredEvent` holds.
pub struct EventView {
    pub name: Seq<char>,
    pub data: Map<Seq<char>, Seq<char>>,
}

impl View for GoSquaredEvent {
    type V = EventView;

    open spec fn view(&self) -> EventView {
        EventView { name: self.name@, data: self.data@ }
    }
}

/// The company of a person.
#[derive(Debug, PartialEq, Eq)]
pub struct GoSquaredCompany {
    pub name: Option<String>,
    pub size: Option<u32>,
    pub industry: Option<String>,
    pub position: Option<String>,
}

impl Default for GoSquaredCompany {
    /// A company of which nothing is known.
    fn default() -> (r: Self)
        ensures
            r@ == no_company(),
    {
        GoSquaredCompany { name: None, size: None, industry: None, position: None }
    }
}

/// What a `GoSquaredCompany` holds, with each text as its characters.
pub struct CompanyView {
    pub name: Option<Seq<char>>,
    pub size: Option<u32>,
    pub industry: Option<Seq<char>>,
    pub position: Option<Seq<char>>,
}

impl View for GoSquaredCompany {
    type V = CompanyView;

    open spec fn view(&self) -> CompanyView {
        CompanyView {
            name: opt_view(self.name),
            size: self.size,
            industry: opt_view(self.industry),
            position: opt_view(self.position),
        }
    }
}

/// What is known of a person: ten named fields, the company, and under
/// `custom` every property that has no field of its own.
#[derive(Debug)]
pub struct GoSquaredUserProperties {
    pub email: Option<String>,
    pub status: Option<String>,
    pub name: Option<String>,
    pub first_name: Option<String>,
    pub last_name: Option<String>,
    pub username: Option<String>,
    pub avatar: Option<String>,
    pub description: Option<String>,
    pub phone: Option<String>,
    pub created_at: Option<String>,
    pub company: Option<GoSquaredCompany>,
    pub custom: StringMap,
}

impl Default for GoSquaredUserProperties {
    /// Nothing known of a person.
    fn default() -> (r: Self)
        ensures
            r@ == properties_of(Seq::empty()),
    {
        let r = GoSquaredUserProperties {
            email: None,
            status: None,
            name: None,
            first_name: None,
            last_name: None,
            username: None,
            avatar: None,
            description: None,
            phone: None,
            created_at: None,
            company: None,
            custom: StringMap::new(),
        };
        assert(r.custom@ =~= custom_of(Seq::empty()));
        r
    }
}

/// What a `GoSquaredUserProperties` holds.
pub struct UserPropertiesView {
    pub email: Option<Seq<char>>,
    pub status: Option<Seq<char>>,
    pub name: Option<Seq<char>>,
    pub first_name: Option<Seq<char>>,
    pub last_name: Option<Seq<char>>,
    pub username: Option<Seq<char>>,
    pub avatar: Option<Seq<char>>,
    pub description: Option<Seq<char>>,
    pub phone: Option<Seq<char>>,
    pub created_at: Option<Seq<char>>,
    pub company: Option<CompanyView>,
    pub custom: Map<Seq<char>, Seq<char>>,
}

impl View for GoSquaredUserProperties {
    type V = UserPropertiesView;

    open spec fn view(&self) -> UserPropertiesView {
        UserPropertiesView {
            email: opt_view(self.email),
            status: opt_view(self.status),
            name: opt_view(self.name),
            first_name: opt_view(self.first_name),
            last_name: opt_view(self.last_name),
            username: opt_view(self.username),
            avatar: opt_view(self.avatar),
            description: opt_view(self.description),
            phone: opt_view(self.phone),
            created_at: opt_view(self.created_at),
            company: opt_view(self.company),
            custom: self.custom@,
        }
    }
}

/// The payload that identifies a person.
#[derive(Debug)]
pub struct GoSquaredIdentifyPayload {
    pub person_id: String,
    pub visitor_id: Option<String>,
    pub properties: Option<GoSquaredUserProperties>,
}

impl Default for GoSquaredIdentifyPayload {
    /// A payload that names nobody.
    fn default() -> (r: Self)
        ensures
            r@ == (IdentifyView { person_id: Seq::empty(), visitor_id: None, properties: None }),
    {
        GoSquaredIdentifyPayload { person_id: String::new(), visitor_id: None, properties: None }
    }
}

/// What a `GoSquaredIdentifyPayload` holds.
pub struct IdentifyView {
    pub person_id: Seq<char>,
    pub visitor_id: Option<Seq<char>>,
    pub properties: Option<UserPropertiesView>,
}

impl View for GoSquaredIdentifyPayload {
    type V = IdentifyView;

    open spec fn view(&self) -> IdentifyView {
        IdentifyView {
            person_id: self.person_id@,
            visitor_id: opt_view(self.visitor_id),
            properties: opt_view(self.properties),
        }
    }
}

/// The payload of a page view.
#[derive(Debug)]
pub struct GoSquaredPageviewPayload {
    pub visitor_id: String,
    pub timestamp: Option<String>,
    pub page: PageInfo,
    pub referrer: Option<String>,
    pub ip: Option<String>,
    pub character_set: Option<String>,
    pub language: Option<String>,
    pub user_agent: Option<String>,
    pub returning: Option<bool>,
    pub screen: Option<ScreenInfo>,
    pub campaign: Option<CampaignInfo>,
}

impl Default for GoSquaredPageviewPayload {
    /// A page view of which nothing is known.
    fn default() -> (r: Self)
        ensures
            r@ == (PageviewView {
                visitor_id: Seq::empty(),
                timestamp: None,
                page: PageInfoView { url: Seq::empty(), title: Seq::empty(), previous: 0, index: 0 },
                referrer: None,
                ip: None,
                character_set: None,
                language: None,
                user_agent: None,
                returning: None,
                screen: None,
                campaign: None,
            }),
    {
        GoSquaredPageviewPayload {
            visitor_id: String::new(),
            timestamp: None,
            page: PageInfo::default(),
            referrer: None,
            ip: None,
            character_set: None,
            language: None,
            user_agent: None,
            returning: None,
            screen: None,
            campaign: None,
        }
    }
}

/// What a `GoSquaredPageviewPayload` holds.
pub struct PageviewView {
    pub visitor_id: Seq<char>,
    pub timestamp: Option<Seq<char>>,
    pub page: PageInfoView,
    pub referrer: Option<Seq<char>>,
    pub ip: Option<Seq<char>>,
    pub character_set: Option<Seq<char>>,
    pub language: Option<Seq<char>>,
    pub user_agent: Option<Seq<char>>,
    pub returning: Option<bool>,
    pub screen: Option<ScreenInfo>,
    pub campaign: Option<CampaignInfoView>,
}

impl View for GoSquaredPageviewPayload {
    type V = PageviewView;

    open spec fn view(&self) -> PageviewView {
        PageviewView {
            visitor_id: self.visitor_id@,
            timestamp: opt_view(self.timestamp),
            page: self.page@,
            referrer: opt_view(self.referrer),
            ip: opt_view(self.ip),
            character_set: opt_view(self.character_set),
            language: opt_view(self.language),
            user_agent: opt_view(self.user_agent),
            returning: self.returning,
            screen: self.screen,
            campaign: opt_view(self.campaign),
        }
    }
}

/// The payload of a custom event.
#[derive(Debug)]
pub struct GoSquaredTrackPayload {
    pub event: GoSquaredEvent,
    pub timestamp: Option<String>,
    pub person_id: Option<String>,
    pub visitor_id: Option<String>,
    pub page: Option<PageInfo>,
    pub referrer: Option<String>,
    pub ip: Option<String>,
    pub character_set: Option<String>,
    pub language: Option<String>,
    pub user_agent: Option<String>,
    pub screen: Option<ScreenInfo>,
    pub returning: Option<bool>,
    pub campaign: Option<CampaignInfo>,
    pub location: Option<LocationInfo>,
    pub last_pageview: Option<String>,
    pub total: Option<TotalInfo>,
}

impl Default for GoSquaredTrackPayload {
    /// An event of which nothing is known.
    fn default() -> (r: Self)
        ensures
            r@ == (TrackView {
                event: EventView { name: Seq::empty(), data: Map::empty() },
                timestamp: None,
                person_id: None,
                visitor_id: None,
                page: None,
                referrer: None,
                ip: None,
                character_set: None,
                language: None,
                user_agent: None,
                screen: None,
                returning: None,
                campaign: None,
                location: None,
                last_pageview: None,
                total: None,
            }),
    {
        GoSquaredTrackPayload {
            event: GoSquaredEvent::default(),
            timestamp: None,
            person_id: None,
            visitor_id: None,
            page: None,
            referrer: None,
            ip: None,
            character_set: None,
            language: None,
            user_agent: None,
            screen: None,
            returning: None,
            campaign: None,
            location: None,
            last_pageview: None,
            total: None,
        }
    }
}

/// What a `GoSquaredTrackPayload` holds.
pub struct TrackView {
    pub event: EventView,
    pub timestamp: Option<Seq<char>>,
    pub person_id: Option<Seq<char>>,
    pub visitor_id: Option<Seq<char>>,
    pub page: Option<PageInfoView>,
    pub referrer: Option<Seq<char>>,
    pub ip: Option<Seq<char>>,
    pub character_set: Option<Seq<char>>,
    pub language: Option<Seq<char>>,
    pub user_agent: Option<Seq<char>>,
    pub screen: Option<ScreenInfo>,
    pub returning: Option<bool>,
    pub campaign: Option<CampaignInfoView>,
    pub location: Option<LocationInfo>,
    pub last_pageview: Option<Seq<char>>,
    pub total: Option<TotalInfo>,
}

impl View for GoSquaredTrackPayload {
    type V = TrackView;

    open spec fn view(&self) -> TrackView {
        TrackView {
            event: self.event@,
            timestamp: opt_view(self.timestamp),
            person_id: opt_view(self.person_id),
            visitor_id: opt_view(self.visitor_id),
            page: opt_view(self.page),
            referrer: opt_view(self.referrer),
            ip: opt_view(self.ip),
            character_set: opt_view(self.character_set),
            language: opt_view(self.language),
            user_agent: opt_view(self.user_agent),
            screen: self.screen,
            returning: self.returning,
            campaign: opt_view(self.campaign),
            location: self.location,
            last_pageview: opt_view(self.last_pageview),
            total: self.total,
        }
    }
}

/// The page of an event: its address and title, and two counters that
/// start at zero.
pub open spec fn page_of(event: Event) -> PageInfoView {
    PageInfoView {
        url: event.context.page.url@,
        title: event.context.page.title@,
        previous: 0,
        index: 0,
    }
}

/// The payload of the page view that `event` records. Whether the visitor
/// returns and the character set are never sent.
pub open spec fn pageview_of(event: Event) -> PageviewView {
    PageviewView {
        visitor_id: event.context.user.anonymous_id@,
        timestamp: Some(int_text(event.timestamp as int)),
        page: page_of(event),
        referrer: Some(event.context.page.referrer@),
        ip: Some(event.context.client.ip@),
        character_set: None,
        language: Some(before_first(event.context.client.locale@, '-')),
        user_agent: Some(event.context.client.user_agent@),
        returning: None,
        screen: Some(screen_of(event.context.client)),
        campaign: Some(campaign_of(event.context.campaign)),
    }
}

/// The payload of a custom event of the given name and data, with what
/// `event` tells of its surroundings. The location, the last page view, the
/// totals, whether the visitor returns and the character set are never sent.
pub open spec fn track_of(
    event: Event,
    name: Seq<char>,
    data: Map<Seq<char>, Seq<char>>,
) -> TrackView {
    TrackView {
        event: EventView { name, data },
        timestamp: Some(int_text(event.timestamp as int)),
        person_id: Some(event.context.user.user_id@),
        visitor_id: Some(event.context.user.anonymous_id@),
        page: Some(page_of(event)),
        referrer: Some(event.context.page.referrer@),
        ip: Some(event.context.client.ip@),
        character_set: None,
        language: Some(before_first(event.context.client.locale@, '-')),
        user_agent: Some(event.context.client.user_agent@),
        screen: Some(screen_of(event.context.client)),
        returning: None,
        campaign: Some(campaign_of(event.context.campaign)),
        location: None,
        last_pageview: None,
        total: None,
    }
}

impl GoSquaredPageviewPayload {
    /// Builds the payload of a page view from `event`.
    pub fn new(event: &Event) -> (r: Self)
        ensures
            r@ == pageview_of(*event),
    {
        GoSquaredPageviewPayload {
            visitor_id: event.context.user.anonymous_id.clone(),
            timestamp: Some(i64_text(event.timestamp)),
            page: PageInfo {
                url: event.context.page.url.clone(),
                title: event.context.page.title.clone(),
                ..PageInfo::default()
            },
            referrer: Some(event.context.page.referrer.clone()),
            ip: Some(event.context.client.ip.clone()),
            character_set: None,
            language: parse_language(event.context.client.locale.as_str()),
            user_agent: Some(event.context.client.user_agent.clone()),
            returning: None,
            screen: Some(screen_from_event(event)),
            campaign: Some(campaign_from_event(event)),
        }
    }
}

impl GoSquaredTrackPayload {
    /// Builds the payload of a custom event from `event`, the name of the
    /// event and its properties.
    pub fn new(event: &Event, event_name: String, properties: StringMap) -> (r: Self)
        ensures
            r@ == track_of(*event, event_name@, properties@),
    {
        GoSquaredTrackPayload {
            event: GoSquaredEvent { name: event_name, data: properties },
            timestamp: Some(i64_text(event.timestamp)),
            person_id: Some(event.context.user.user_id.clone()),
            visitor_id: Some(event.context.user.anonymous_id.clone()),
            page: Some(
                PageInfo {
                    url: event.context.page.url.clone(),
                    title: event.context.page.title.clone(),
                    previous: 0,
                    index: 0,
                },
            ),
            referrer: Some(event.context.page.referrer.clone()),
            ip: Some(event.context.client.ip.clone()),
            character_set: None,
            language: parse_language(event.context.client.locale.as_str()),
            user_agent: Some(event.context.client.user_agent.clone()),
            screen: Some(screen_from_event(event)),
            returning: None,
            campaign: Some(campaign_from_event(event)),
            location: None,
            last_pageview: None,
            total: None,
        }
    }
}

/// Whether `key` names one of the ten fields of a person's profile.
pub open spec fn is_profile_key(key: Seq<char>) -> bool {
    ||| key == "email"@
    ||| key == "status"@
    ||| key == "name"@
    ||| key == "first_name"@
    ||| key == "last_name"@
    ||| key == "username"@
    ||| key == "avatar"@
    ||| key == "description"@
    ||| key == "phone"@
    ||| key == "created_at"@
}

/// Whether `key` names one of the four fields of a person's company.
pub open spec fn is_company_key(key: Seq<char>) -> bool {
    ||| key == "company.name"@
    ||| key == "company.industry"@
    ||| key == "company.position"@
    ||| key == "company.size"@
}

/// The size of the company: the last value of `company.size` that is a
/// number. A value that is none is passed over.
pub open spec fn company_size(properties: Pairs) -> Option<u32>
    decreases properties.len(),
{
    if properties.len() == 0 {
        None
    } else if properties.last().0 == "company.size"@ && u32_of(properties.last().1) is Some {
        u32_of(properties.last().1)
    } else {
        company_size(properties.drop_last())
    }
}

/// What the properties tell of a person's company.
pub open spec fn company_of(properties: Pairs) -> CompanyView {
    CompanyView {
        name: lookup(properties, "company.name"@),
        size: company_size(properties),
        industry: lookup(properties, "company.industry"@),
        position: lookup(properties, "company.position"@),
    }
}

/// A company of which nothing is known.
pub open spec fn no_company() -> CompanyView {
    CompanyView { name: None, size: None, industry: None, position: None }
}

/// The properties that have no field of their own, each with its last value.
pub open spec fn custom_of(properties: Pairs) -> Map<Seq<char>, Seq<char>> {
    Map::new(
        |key: Seq<char>|
            !is_profile_key(key) && !is_company_key(key) && lookup(properties, key) is Some,
        |key: Seq<char>| lookup(properties, key).unwrap(),
    )
}

/// What the properties of a user tell of the person: each named field has
/// the last value of its key, the company is there where any of its fields
/// is, and every other key stands under `custom`.
pub open spec fn properties_of(properties: Pairs) -> UserPropertiesView {
    UserPropertiesView {
        email: lookup(properties, "email"@),
        status: lookup(properties, "status"@),
        name: lookup(properties, "name"@),
        first_name: lookup(properties, "first_name"@),
        last_name: lookup(properties, "last_name"@),
        username: lookup(properties, "username"@),
        avatar: lookup(properties, "avatar"@),
        description: lookup(properties, "description"@),
        phone: lookup(properties, "phone"@),
        created_at: lookup(properties, "created_at"@),
        company: if company_of(properties) == no_company() {
            None
        } else {
            Some(company_of(properties))
        },
        custom: custom_of(properties),
    }
}

/// The payload that identifies the user of `event`.
pub open spec fn identify_of(event: Event) -> IdentifyView {
    IdentifyView {
        person_id: event.context.user.user_id@,
        visitor_id: Some(event.context.user.anonymous_id@),
        properties: Some(properties_of(event.context.user.properties.deep_view())),
    }
}

/// The place of a key among those that have a field of their own, counted
/// from zero in the order of the fields; fourteen for any other key.
pub open spec fn key_rank(key: Seq<char>) -> int {
    if key == "email"@ {
        0
    } else if key == "status"@ {
        1
    } else if key == "name"@ {
        2
    } else if key == "first_name"@ {
        3
    } else if key == "last_name"@ {
        4
    } else if key == "username"@ {
        5
    } else if key == "avatar"@ {
        6
    } else if key == "description"@ {
        7
    } else if key == "phone"@ {
        8
    } else if key == "created_at"@ {
        9
    } else if key == "company.name"@ {
        10
    } else if key == "company.industry"@ {
        11
    } else if key == "company.position"@ {
        12
    } else if key == "company.size"@ {
        13
    } else {
        14
    }
}

/// The fourteen keys that have a field of their own differ from each other.
pub proof fn lemma_keys_differ()
    ensures
        key_rank("email"@) == 0,
        key_rank("status"@) == 1,
        key_rank("name"@) == 2,
        key_rank("first_name"@) == 3,
        key_rank("last_name"@) == 4,
        key_rank("username"@) == 5,
        key_rank("avatar"@) == 6,
        key_rank("description"@) == 7,
        key_rank("phone"@) == 8,
        key_rank("created_at"@) == 9,
        key_rank("company.name"@) == 10,
        key_rank("company.industry"@) == 11,
        key_rank("company.position"@) == 12,
        key_rank("company.size"@) == 13,
{
    reveal_strlit("email");
    reveal_strlit("status");
    reveal_strlit("name");
    reveal_strlit("first_name");
    reveal_strlit("last_name");
    reveal_strlit("username");
    reveal_strlit("avatar");
    reveal_strlit("description");
    reveal_strlit("phone");
    reveal_strlit("created_at");
    reveal_strlit("company.name");
    reveal_strlit("company.industry");
    reveal_strlit("company.position");
    reveal_strlit("company.size");
    assert("email"@.len() == 5);
    assert("status"@.len() == 6);
    assert("name"@.len() == 4);
    assert("first_name"@.len() == 10);
    assert("last_name"@.len() == 9);
    assert("username"@.len() == 8);
    assert("avatar"@.len() == 6);
    assert("description"@.len() == 11);
    assert("phone"@.len() == 5);
    assert("created_at"@.len() == 10);
    assert("company.name"@.len() == 12);
    assert("company.industry"@.len() == 16);
    assert("company.position"@.len() == 16);
    assert("company.size"@.len() == 12);
    assert("email"@[0] != "phone"@[0]);
    assert("status"@[0] != "avatar"@[0]);
    assert("first_name"@[0] != "created_at"@[0]);
    assert("company.name"@[8] != "company.size"@[8]);
    assert("company.industry"@[8] != "company.position"@[8]);
}

/// Whether `props` and `company` hold what the properties `seen` tell, the
/// company not yet attached.
spec fn gathered(props: GoSquaredUserProperties, company: GoSquaredCompany, seen: Pairs) -> bool {
    &&& opt_view(props.email) == lookup(seen, "email"@)
    &&& opt_view(props.status) == lookup(seen, "status"@)
    &&& opt_view(props.name) == lookup(seen, "name"@)
    &&& opt_view(props.first_name) == lookup(seen, "first_name"@)
    &&& opt_view(props.last_name) == lookup(seen, "last_name"@)
    &&& opt_view(props.username) == lookup(seen, "username"@)
    &&& opt_view(props.avatar) == lookup(seen, "avatar"@)
    &&& opt_view(props.description) == lookup(seen, "description"@)
    &&& opt_view(props.phone) == lookup(seen, "phone"@)
    &&& opt_view(props.created_at) == lookup(seen, "created_at"@)
    &&& props.company is None
    &&& props.custom@ == custom_of(seen)
    &&& company@ == company_of(seen)
}

/// Puts one property where it belongs.
fn absorb(
    props: &mut GoSquaredUserProperties,
    company: &mut GoSquaredCompany,
    key: &String,
    value: &String,
    Ghost(seen): Ghost<Pairs>,
)
    requires
        gathered(*old(props), *old(company), seen),
    ensures
        gathered(*final(props), *final(company), seen.push((key@, value@))),
{
    let ghost next = seen.push((key@, value@));
    proof {
        lemma_keys_differ();
        assert(next.drop_last() == seen);
        assert(next.last() == (key@, value@));
    }
    let k = key.as_str();
    if same_text(k, "email") {
        props.email = Some(value.clone());
    } else if same_text(k, "status") {
        props.status = Some(value.clone());
    } else if same_text(k, "name") {
        props.name = Some(value.clone());
    } else if same_text(k, "first_name") {
        props.first_name = Some(value.clone());
    } else if same_text(k, "last_name") {
        props.last_name = Some(value.clone());
    } else if same_text(k, "username") {
        props.username = Some(value.clone());
    } else if same_text(k, "avatar") {
        props.avatar = Some(value.clone());
    } else if same_text(k, "description") {
        props.description = Some(value.clone());
    } else if same_text(k, "phone") {
        props.phone = Some(value.clone());
    } else if same_text(k, "created_at") {
        props.created_at = Some(value.clone());
    } else if same_text(k, "company.name") {
        company.name = Some(value.clone());
    } else if same_text(k, "company.industry") {
        company.industry = Some(value.clone());
    } else if same_text(k, "company.position") {
        company.position = Some(value.clone());
    } else if same_text(k, "company.size") {
        if let Some(size) = parse_u32(value.as_str()) {
            company.size = Some(size);
        }
    } else {
        props.custom.insert(key.clone(), value.clone());
    }
    assert(props.custom@ =~= custom_of(next));
}

impl GoSquaredIdentifyPayload {
    /// Builds the payload that identifies the user of `event`.
    pub fn new(event: &Event) -> (r: Self)
        ensures
            r@ == identify_of(*event),
    {
        let properties = &event.context.user.properties;
        let ghost all = properties.deep_view();
        let mut props = GoSquaredUserProperties::default();
        let mut company = GoSquaredCompany::default();
        assert(all.take(0) =~= Seq::<(Seq<char>, Seq<char>)>::empty());
        let mut i: usize = 0;
        while i < properties.len()
            invariant
                i <= properties.len(),
                all == properties.deep_view(),
                gathered(props, company, all.take(i as int)),
            decreases properties.len() - i,
        {
            let ghost seen = all.take(i as int);
            absorb(&mut props, &mut company, &properties[i].0, &properties[i].1, Ghost(seen));
            assert(all.take(i + 1) == seen.push((properties[i as int].0@, properties[i as int].1@)));
            i += 1;
        }
        assert(all.take(i as int) == all);
        if company.name.is_some() || company.size.is_some() || company.industry.is_some()
            || company.position.is_some() {
            props.company = Some(company);
        }
        GoSquaredIdentifyPayload {
            person_id: event.context.user.user_id.clone(),
            visitor_id: Some(event.context.user.anonymous_id.clone()),
            properties: Some(props),
        }
    }
}

/// The field of a profile that `key` names, and nothing where it names none.
pub open spec fn profile_field(profile: UserPropertiesView, key: Seq<char>) -> Option<Seq<char>> {
    if key == "email"@ {
        profile.email
    } else if key == "status"@ {
        profile.status
    } else if key == "name"@ {
        profile.name
    } else if key == "first_name"@ {
        profile.first_name
    } else if key == "last_name"@ {
        profile.last_name
    } else if key == "username"@ {
        profile.username
    } else if key == "avatar"@ {
        profile.avatar
    } else if key == "description"@ {
        profile.description
    } else if key == "phone"@ {
        profile.phone
    } else if key == "created_at"@ {
        profile.created_at
    } else {
        None
    }
}

/// The text field of a company that `key` names, and nothing where it names
/// none.
pub open spec fn company_field(company: CompanyView, key: Seq<char>) -> Option<Seq<char>> {
    if key == "company.name"@ {
        company.name
    } else if key == "company.industry"@ {
        company.industry
    } else if key == "company.position"@ {
        company.position
    } else {
        None
    }
}

/// Whether a property tells something of the company: a name, an industry
/// or a position, or a size that is a number.
pub open spec fn tells_of_company(property: (Seq<char>, Seq<char>)) -> bool {
    ||| property.0 == "company.name"@
    ||| property.0 == "company.industry"@
    ||| property.0 == "company.position"@
    ||| property.0 == "company.size"@ && u32_of(property.1) is Some
}

/// The size of the company is known exactly where some property gives it as
/// a number.
pub proof fn lemma_company_size(properties: Pairs)
    ensures
        company_size(properties) is Some <==> exists|i: int|
            0 <= i < properties.len() && (#[trigger] properties[i]).0 == "company.size"@ && u32_of(
                properties[i].1,
            ) is Some,
    decreases properties.len(),
{
    if properties.len() > 0 {
        let front = properties.drop_last();
        lemma_company_size(front);
        let last = properties[properties.len() - 1];
        if last.0 == "company.size"@ && u32_of(last.1) is Some {
        } else if company_size(front) is Some {
            let i = choose|i: int|
                0 <= i < front.len() && (#[trigger] front[i]).0 == "company.size"@ && u32_of(
                    front[i].1,
                ) is Some;
            assert(properties[i] == front[i]);
        } else {
            assert forall|i: int| 0 <= i < properties.len() implies !((
            #[trigger] properties[i]).0 == "company.size"@ && u32_of(properties[i].1) is Some) by {
                if i < front.len() {
                    assert(front[i] == properties[i]);
                }
            }
        }
    }
}

/// Every property of a user has one place in what is told of the person,
/// and one only. A key of the profile stands in its field, with its last
/// value, and neither in the company nor under `custom`. A key of the company
/// stands in the company, and neither in the profile nor under `custom`; a
/// size that is a number stands there, and one that is none sets nothing, so
/// that the size is left out where no property gives it as a number.
/// Every other key stands under `custom`, with its last value, and in no
/// field.
pub proof fn lemma_every_property_has_one_place(properties: Pairs, i: int)
    requires
        0 <= i < properties.len(),
    ensures
        ({
            let key = properties[i].0;
            let told = properties_of(properties);
            if is_profile_key(key) {
                &&& profile_field(told, key) is Some
                &&& profile_field(told, key) == lookup(properties, key)
                &&& !is_company_key(key)
                &&& !told.custom.contains_key(key)
            } else if is_company_key(key) {
                &&& profile_field(told, key) is None
                &&& !told.custom.contains_key(key)
                &&& key != "company.size"@ ==> told.company is Some && company_field(
                    told.company.unwrap(),
                    key,
                ) is Some && company_field(told.company.unwrap(), key) == lookup(properties, key)
                &&& key == "company.size"@ && u32_of(properties[i].1) is Some ==> told.company is Some
                    && told.company.unwrap().size is Some
            } else {
                &&& profile_field(told, key) is None
                &&& told.custom.contains_key(key)
                &&& Some(told.custom[key]) == lookup(properties, key)
            }
        }),
{
    let key = properties[i].0;
    lemma_keys_differ();
    lemma_lookup_held(properties, key, i);
    lemma_company_size(properties);
}

/// Nothing is told of a person that the properties do not hold: a field that
/// is set, and a key under `custom`, is the key of some property.
pub proof fn lemma_nothing_told_without_property(properties: Pairs, key: Seq<char>)
    requires
        profile_field(properties_of(properties), key) is Some || properties_of(
            properties,
        ).custom.contains_key(key) || (properties_of(properties).company is Some && company_field(
            properties_of(properties).company.unwrap(),
            key,
        ) is Some),
    ensures
        exists|i: int| 0 <= i < properties.len() && (#[trigger] properties[i]).0 == key,
{
    lemma_keys_differ();
    let i = lemma_lookup_present(properties, key);
    assert(properties[i].0 == key);
}

/// The company is told of exactly where some property tells of it.
pub proof fn lemma_company_told(properties: Pairs)
    ensures
        properties_of(properties).company is Some <==> exists|i: int|
            0 <= i < properties.len() && tells_of_company(#[trigger] properties[i]),
        properties_of(properties).company matches Some(company) ==> company == company_of(
            properties,
        ),
{
    lemma_company_size(properties);
    let company = company_of(properties);
    if company.name is Some {
        let i = lemma_lookup_present(properties, "company.name"@);
        assert(tells_of_company(properties[i]));
    }
    if company.industry is Some {
        let i = lemma_lookup_present(properties, "company.industry"@);
        assert(tells_of_company(properties[i]));
    }
    if company.position is Some {
        let i = lemma_lookup_present(properties, "company.position"@);
        assert(tells_of_company(properties[i]));
    }
    if company.size is Some {
        let i = choose|i: int|
            0 <= i < properties.len() && (#[trigger] properties[i]).0 == "company.size"@ && u32_of(
                properties[i].1,
            ) is Some;
        assert(tells_of_company(properties[i]));
    }
    if exists|i: int| 0 <= i < properties.len() && tells_of_company(#[trigger] properties[i]) {
        let i = choose|i: int| 0 <= i < properties.len() && tells_of_company(#[trigger] properties[i]);
        lemma_lookup_held(properties, properties[i].0, i);
    }
}

} // verus!
