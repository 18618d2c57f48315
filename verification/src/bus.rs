//! The event bus: every event it receives is forwarded to each service, in a
//! fixed order, whatever became of the previous deliveries.

use vstd::prelude::*;

verus! {

/// The endpoints that receive every event, in delivery order.
pub open spec fn subscribers() -> Seq<Seq<char>> {
    seq![
        "http://rst-posts-srv:8080/events"@,
        "http://rst-comments-srv:8081/events"@,
        "http://rst-query-srv:8082/events"@,
    ]
}

/// The endpoints to forward each event to, in delivery order.
pub fn subscriber_urls() -> (urls: Vec<String>)
    ensures
        urls@.map_values(|u: String| u@) == subscribers(),
{
    let mut urls: Vec<String> = Vec::new();
    urls.push("http://rst-posts-srv:8080/events".to_owned());
    urls.push("http://rst-comments-srv:8081/events".to_owned());
    urls.push("http://rst-query-srv:8082/events".to_owned());
    assert(urls@.map_values(|u: String| u@) =~= subscribers());
    urls
}

/// Where the posts service sends the events it emits.
pub open spec fn event_bus() -> Seq<char> {
    "http://rst-events-srv:8085/events"@
}

/// The endpoint of the event bus.
pub fn event_bus_url() -> (url: String)
    ensures
        url@ == event_bus(),
{
    "http://rst-events-srv:8085/events".to_owned()
}

} // verus!
