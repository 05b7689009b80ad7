//! The MQTT side of the API service: the topic it subscribes to, what it
//! reads out of the CloudEvents that devices report, and when a report
//! changes the lock state that the web side shows.

use vstd::prelude::*;
use vstd::string::*;
use crate::text::text_eq;
use cloudevents::event::AttributeValue;
use cloudevents::Data;

verus! {

/// The state that a device reports.
#[derive(PartialEq, Eq, Structural, Clone, Copy, Debug)]
pub struct Request {
    pub locked: bool,
}

/// One context attribute of an event: its name, and its text when its value
/// is a string.
pub struct EventAttribute {
    pub name: String,
    pub text: Option<String>,
}

/// The data of an event, as far as the service reads it.
pub enum EventData {
    /// No data, or data that is not JSON.
    Absent,
    /// JSON data that is a string.
    JsonText(String),
    /// JSON data of another kind.
    JsonOther,
}

/// What the service reads out of an event.
pub struct EventFields {
    pub attributes: Vec<EventAttribute>,
    pub data: EventData,
}

impl View for EventAttribute {
    type V = (Seq<char>, Option<Seq<char>>);

    open spec fn view(&self) -> (Seq<char>, Option<Seq<char>>) {
        (self.name@, match self.text {
            Some(t) => Some(t@),
            None => None,
        })
    }
}

impl EventData {
    /// `None` when absent, `Some(None)` for JSON that is no string,
    /// `Some(Some(text))` for a JSON string.
    pub open spec fn view_data(&self) -> Option<Option<Seq<char>>> {
        match self {
            EventData::Absent => None,
            EventData::JsonText(t) => Some(Some(t@)),
            EventData::JsonOther => Some(None),
        }
    }
}

/// The attributes, each as its name and optional text.
pub open spec fn attribute_views(attributes: Seq<EventAttribute>) -> Seq<(Seq<char>, Option<Seq<char>>)> {
    attributes.map_values(|a: EventAttribute| a@)
}

/// No two attributes share a name.
pub open spec fn names_distinct(attrs: Seq<(Seq<char>, Option<Seq<char>>)>) -> bool {
    forall|i: int, j: int|
        0 <= i < attrs.len() && 0 <= j < attrs.len() && i != j ==> #[trigger] attrs[i].0 != #[trigger] attrs[j].0
}

/// The attributes agree with a map from names to texts that has exactly their
/// names as keys.
pub open spec fn attributes_match(attrs: Seq<(Seq<char>, Option<Seq<char>>)>, m: Map<Seq<char>, Option<Seq<char>>>) -> bool {
    &&& forall|i: int| 0 <= i < attrs.len() ==> #[trigger] m.contains_key(attrs[i].0) && m[attrs[i].0] == attrs[i].1
    &&& forall|k: Seq<char>| #[trigger] m.contains_key(k) ==> exists|i: int| 0 <= i < attrs.len() && attrs[i].0 == k
}

/// What a payload holds when read as a JSON CloudEvent: `None` if it is not
/// one; else its attributes (name to string text, if the value is a string)
/// and its data as `EventData::view_data` describes it.
pub uninterp spec fn cloudevent_reading(payload: Seq<u8>) -> Option<(Map<Seq<char>, Option<Seq<char>>>, Option<Option<Seq<char>>>)>;

/// `serde_json::from_slice::<cloudevents::Event>` on the payload, then
/// `Event::iter` and `Event::data` on the event read. Claims: the result is
/// `Some` exactly when the payload reads as an event; its attributes, in the
/// order of the event's iterator, agree with the named reading and have
/// distinct names (the known attributes are taken out of the JSON object
/// before the rest become extensions, which are held in a map); its data is
/// the named data. The order of the attributes is not stated: extensions come
/// out of a hash map.
#[verifier::external_body]
fn decode_cloudevent(payload: &[u8]) -> (r: Option<EventFields>)
    ensures
        r is Some <==> cloudevent_reading(payload@) is Some,
        r matches Some(f) ==> {
            &&& names_distinct(attribute_views(f.attributes@))
            &&& attributes_match(attribute_views(f.attributes@), cloudevent_reading(payload@).unwrap().0)
            &&& f.data.view_data() == cloudevent_reading(payload@).unwrap().1
        },
{
    let e = serde_json::from_slice::<cloudevents::Event>(payload).ok()?;
    let attributes = e.iter().map(|(n, v)| EventAttribute {
        name: n.to_string(),
        text: if let AttributeValue::String(s) = v { Some(s.to_string()) } else { None },
    }).collect();
    let data = match e.data() {
        Some(Data::Json(v)) => v.as_str().map_or(EventData::JsonOther, |t| EventData::JsonText(t.to_string())),
        _ => EventData::Absent,
    };
    Some(EventFields { attributes, data })
}

/// The text of the last attribute called `name` whose value is a string, or
/// the empty text if there is none.
pub open spec fn last_text(attrs: Seq<(Seq<char>, Option<Seq<char>>)>, name: Seq<char>) -> Seq<char>
    decreases attrs.len(),
{
    if attrs.len() == 0 {
        Seq::empty()
    } else if attrs.last().0 == name && attrs.last().1 is Some {
        attrs.last().1.unwrap()
    } else {
        last_text(attrs.drop_last(), name)
    }
}

/// The text under `name` in a map of attributes, or the empty text if there
/// is none or its value is not a string.
pub open spec fn text_under(m: Map<Seq<char>, Option<Seq<char>>>, name: Seq<char>) -> Seq<char> {
    if m.contains_key(name) && m[name] is Some {
        m[name].unwrap()
    } else {
        Seq::empty()
    }
}

/// The application and the device that an event comes from: the last
/// string-valued attributes called `application` and `device`, each empty if
/// there is none.
pub fn event_origin(attributes: &Vec<EventAttribute>) -> (origin: (String, String))
    ensures
        origin.0@ == last_text(attribute_views(attributes@), "application"@),
        origin.1@ == last_text(attribute_views(attributes@), "device"@),
{
    let mut application = String::new();
    let mut device = String::new();
    let mut i: usize = 0;
    while i < attributes.len()
        invariant
            0 <= i <= attributes@.len(),
            application@ == last_text(attribute_views(attributes@.subrange(0, i as int)), "application"@),
            device@ == last_text(attribute_views(attributes@.subrange(0, i as int)), "device"@),
        decreases attributes@.len() - i,
    {
        let a = &attributes[i];
        proof {
            let pre = attribute_views(attributes@.subrange(0, i as int));
            let post = attribute_views(attributes@.subrange(0, i + 1));
            assert(post.drop_last() =~= pre);
            assert(post.last() == attributes@[i as int]@);
            reveal_strlit("device");
            reveal_strlit("application");
            assert("device"@.len() != "application"@.len());
        }
        if text_eq(a.name.as_str(), "device") {
            if let Some(t) = &a.text {
                device = t.clone();
            }
        } else if text_eq(a.name.as_str(), "application") {
            if let Some(t) = &a.text {
                application = t.clone();
            }
        }
        i = i + 1;
    }
    proof {
        assert(attributes@.subrange(0, attributes@.len() as int) =~= attributes@);
    }
    (application, device)
}

/// With distinct names, the last string attribute called `name` is the one
/// that the map of attributes holds under `name`.
pub proof fn lemma_last_text_is_text_under(
    attrs: Seq<(Seq<char>, Option<Seq<char>>)>,
    m: Map<Seq<char>, Option<Seq<char>>>,
    name: Seq<char>,
)
    requires
        names_distinct(attrs),
        attributes_match(attrs, m),
    ensures
        last_text(attrs, name) == text_under(m, name),
    decreases attrs.len(),
{
    if attrs.len() == 0 {
        if m.contains_key(name) {
            let i = choose|i: int| 0 <= i < attrs.len() && attrs[i].0 == name;
        }
    } else {
        let rest = attrs.drop_last();
        let n = attrs.len() - 1;
        let rest_map = m.remove(attrs.last().0);
        assert(names_distinct(rest));
        assert forall|i: int| 0 <= i < rest.len() implies #[trigger] rest_map.contains_key(rest[i].0)
            && rest_map[rest[i].0] == rest[i].1 by {
            assert(attrs[i] == rest[i]);
            assert(attrs[i].0 != attrs[n].0);
            assert(m.contains_key(attrs[i].0) && m[attrs[i].0] == attrs[i].1);
        }
        assert forall|k: Seq<char>| #[trigger] rest_map.contains_key(k) implies exists|i: int|
            0 <= i < rest.len() && rest[i].0 == k by {
            let i = choose|i: int| 0 <= i < attrs.len() && attrs[i].0 == k;
            assert(i != n);
            assert(rest[i] == attrs[i]);
        }
        lemma_last_text_is_text_under(rest, rest_map, name);
        assert(m.contains_key(attrs[n].0));
        if attrs.last().0 != name {
            assert(rest_map.contains_key(name) == m.contains_key(name));
        }
    }
}

/// The MQTT side of the API service, for one device of one application.
pub struct Server {
    group_id: Option<String>,
    application: String,
    device: String,
}

/// What a message read off the subscription holds.
pub enum Inspection {
    /// The payload is not a CloudEvent: the service stops reading.
    Malformed,
    /// An event from `device` of `application`, with its data.
    Event { application: String, device: String, data: EventData },
}

/// The topic to subscribe to: a shared subscription when a group is given,
/// so that several instances split the events between them.
pub open spec fn subscription_topic_of(group_id: Option<Seq<char>>, application: Seq<char>) -> Seq<char> {
    match group_id {
        Some(g) => "$shared/"@ + g + "/app/"@ + application,
        None => "app/"@ + application,
    }
}

/// The lock state to store after an event from `device` of `application`
/// whose status decoded as given, for a server of `own_device` of
/// `own_application`: the reported state when the event is the server's own
/// device and its status decoded; nothing otherwise.
pub open spec fn update_of(
    own_application: Seq<char>,
    own_device: Seq<char>,
    application: Seq<char>,
    device: Seq<char>,
    status: Option<Option<Request>>,
) -> Option<bool> {
    if device == own_device && application == own_application {
        match status {
            Some(Some(r)) => Some(r.locked),
            _ => None,
        }
    } else {
        None
    }
}

impl Server {
    /// The consumer group, if the subscription is shared.
    pub closed spec fn group_id_spec(&self) -> Option<Seq<char>> {
        match self.group_id {
            Some(g) => Some(g@),
            None => None,
        }
    }

    /// The application whose events are read.
    pub closed spec fn application_spec(&self) -> Seq<char> {
        self.application@
    }

    /// The device whose state is followed.
    pub closed spec fn device_spec(&self) -> Seq<char> {
        self.device@
    }

    /// A server following `device` of `application`.
    pub fn new(group_id: Option<String>, application: String, device: String) -> (s: Server)
        ensures
            s.group_id_spec() == (match group_id {
                Some(g) => Some(g@),
                None => None::<Seq<char>>,
            }),
            s.application_spec() == application@,
            s.device_spec() == device@,
    {
        Server { group_id, application, device }
    }

    /// The topic to subscribe to.
    pub fn subscription_topic(&self) -> (t: String)
        ensures
            t@ == subscription_topic_of(self.group_id_spec(), self.application_spec()),
    {
        match &self.group_id {
            Some(g) => {
                let mut t = String::from_str("$shared/");
                t.append(g.as_str());
                t.append("/app/");
                t.append(self.application.as_str());
                t
            },
            None => {
                let mut t = String::from_str("app/");
                t.append(self.application.as_str());
                t
            },
        }
    }

    /// Reads a message payload: a CloudEvent gives the application and device
    /// it comes from and its data; anything else is malformed.
    pub fn inspect(&self, payload: &[u8]) -> (r: Inspection)
        ensures
            r is Malformed <==> cloudevent_reading(payload@) is None,
            r matches Inspection::Event { application, device, data } ==> {
                &&& application@ == text_under(cloudevent_reading(payload@).unwrap().0, "application"@)
                &&& device@ == text_under(cloudevent_reading(payload@).unwrap().0, "device"@)
                &&& data.view_data() == cloudevent_reading(payload@).unwrap().1
            },
    {
        match decode_cloudevent(payload) {
            None => Inspection::Malformed,
            Some(fields) => {
                let (application, device) = event_origin(&fields.attributes);
                proof {
                    let m = cloudevent_reading(payload@).unwrap().0;
                    lemma_last_text_is_text_under(attribute_views(fields.attributes@), m, "application"@);
                    lemma_last_text_is_text_under(attribute_views(fields.attributes@), m, "device"@);
                }
                Inspection::Event { application, device, data: fields.data }
            },
        }
    }

    /// The lock state to store after an event from `device` of `application`
    /// whose status decoded as `status` (`None`: the event had no JSON data;
    /// `Some(None)`: it did not decode as a status).
    pub fn status_update(&self, application: &str, device: &str, status: Option<Option<Request>>) -> (r: Option<bool>)
        ensures
            r == update_of(self.application_spec(), self.device_spec(), application@, device@, status),
    {
        if text_eq(device, self.device.as_str()) && text_eq(application, self.application.as_str()) {
            match status {
                Some(Some(request)) => Some(request.locked),
                _ => None,
            }
        } else {
            None
        }
    }
}

/// Only the server's own device moves the lock state, and then to what it
/// reported: a stored state is always one that the device itself reported.
pub proof fn lemma_only_own_device_updates(
    own_application: Seq<char>,
    own_device: Seq<char>,
    application: Seq<char>,
    device: Seq<char>,
    status: Option<Option<Request>>,
)
    ensures
        update_of(own_application, own_device, application, device, status) is Some ==> {
            &&& device == own_device
            &&& application == own_application
            &&& status == Some(Some(Request { locked: update_of(own_application, own_device, application, device, status).unwrap() }))
        },
{
}

} // verus!
