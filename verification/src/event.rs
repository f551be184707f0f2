//! The analytics event that the host hands over, and the request that it
//! gets back.

use crate::dict::{Dict, Pairs};
use vstd::prelude::*;

verus! {

/// What is known of the page on which the event happened.
#[derive(Debug)]
pub struct PageData {
    pub url: String,
    pub title: String,
    pub referrer: String,
    pub properties: Dict,
}

/// What is known of the user.
#[derive(Debug)]
pub struct UserData {
    pub user_id: String,
    pub anonymous_id: String,
    pub properties: Dict,
}

/// A custom event: its name and its properties.
#[derive(Debug)]
pub struct TrackData {
    pub name: String,
    pub properties: Dict,
}

/// What is known of the user's device. The screen density is held as the bit
/// pattern of a single-precision number, which this library only hands on.
#[derive(Debug)]
pub struct Client {
    pub ip: String,
    pub user_agent: String,
    pub locale: String,
    pub screen_height: i32,
    pub screen_width: i32,
    pub screen_density: u32,
}

/// The campaign that brought the user.
#[derive(Debug)]
pub struct Campaign {
    pub name: String,
    pub source: String,
    pub medium: String,
    pub content: String,
    pub term: String,
}

/// The surroundings of an event.
#[derive(Debug)]
pub struct Context {
    pub page: PageData,
    pub user: UserData,
    pub client: Client,
    pub campaign: Campaign,
}

/// What an event carries, by its kind.
#[derive(Debug)]
pub enum Data {
    Page(PageData),
    Track(TrackData),
    User(UserData),
}

/// One action of a user, as the host records it.
#[derive(Debug)]
pub struct Event {
    /// Seconds since the Unix epoch.
    pub timestamp: i64,
    pub data: Data,
    pub context: Context,
}

/// The method of an outbound request.
#[derive(Debug, Clone, Copy, PartialEq, Eq, Structural)]
pub enum HttpMethod {
    Get,
    Put,
    Post,
    Delete,
}

/// An outbound request, for the host to send.
#[derive(Debug)]
pub struct EdgeeRequest {
    pub method: HttpMethod,
    pub url: String,
    pub headers: Dict,
    pub forward_client_headers: bool,
    pub body: String,
}

/// What an `EdgeeRequest` holds, with each text as its characters.
pub struct RequestView {
    pub method: HttpMethod,
    pub url: Seq<char>,
    pub headers: Pairs,
    pub forward_client_headers: bool,
    pub body: Seq<char>,
}

impl View for EdgeeRequest {
    type V = RequestView;

    open spec fn view(&self) -> RequestView {
        RequestView {
            method: self.method,
            url: self.url@,
            headers: self.headers.deep_view(),
            forward_client_headers: self.forward_client_headers,
            body: self.body@,
        }
    }
}

} // verus!
