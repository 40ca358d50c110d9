//! Home Assistant discovery messages: the topic each is published on and the
//! fields of its JSON object, in order.
use vstd::prelude::*;
use crate::plugins::mqtt::Qos;

verus! {

/// The device a discovered entity belongs to.
#[derive(Debug, Clone, Copy)]
pub struct Device {
    pub identifiers: &'static [&'static str],
    pub name: &'static str,
}

/// The identifiers and name of a device.
pub open spec fn device_view(d: Device) -> (Seq<Seq<char>>, Seq<char>) {
    (d.identifiers@.map_values(|s: &str| s@), d.name@)
}

/// The value of one field of a discovery record.
#[derive(Debug, Clone, Copy)]
pub enum FieldValue {
    Text(&'static str),
    Flag(bool),
    Null,
    Device(Device),
}

/// The value of a field as the contracts see it.
pub enum FieldView {
    Text(Seq<char>),
    Flag(bool),
    Null,
    Device(Seq<Seq<char>>, Seq<char>),
}

pub open spec fn field_view(v: FieldValue) -> FieldView {
    match v {
        FieldValue::Text(s) => FieldView::Text(s@),
        FieldValue::Flag(b) => FieldView::Flag(b),
        FieldValue::Null => FieldView::Null,
        FieldValue::Device(d) => FieldView::Device(device_view(d).0, device_view(d).1),
    }
}

/// The fields of a record, names and values.
pub open spec fn fields_view(fields: Seq<(&'static str, FieldValue)>) -> Seq<(Seq<char>, FieldView)> {
    fields.map_values(|f: (&'static str, FieldValue)| (f.0@, field_view(f.1)))
}

/// One discovery message.
#[derive(Debug)]
pub struct Discovery {
    pub topic: String,
    pub fields: Vec<(&'static str, FieldValue)>,
    pub qos: Qos,
    pub retained: bool,
}

/// A discovery message as the contracts see it: topic, fields, quality of
/// service and retain flag.
pub type DiscoveryView = (Seq<char>, Seq<(Seq<char>, FieldView)>, Qos, bool);

pub open spec fn discovery_view(d: Discovery) -> DiscoveryView {
    (d.topic@, fields_view(d.fields@), d.qos, d.retained)
}

/// The discovery messages of a list.
pub open spec fn discoveries_view(ds: Seq<Discovery>) -> Seq<DiscoveryView> {
    ds.map_values(|d: Discovery| discovery_view(d))
}

/// `homeassistant/<component>/<object id>/<group>/config`.
pub open spec fn discovery_topic_spec(component: Seq<char>, object_id: Seq<char>, group: Seq<char>) -> Seq<char> {
    "homeassistant"@ + seq!['/'] + component + seq!['/'] + object_id + seq!['/'] + group + "/config"@
}

/// Two sequences of one length that differ, differ at some index.
proof fn lemma_differ_at(a: Seq<char>, b: Seq<char>) -> (k: int)
    requires
        a.len() == b.len(),
        a != b,
    ensures
        0 <= k < a.len(),
        a[k] != b[k],
{
    if forall|k: int| 0 <= k < a.len() ==> a[k] == b[k] {
        assert(a =~= b);
    }
    choose|k: int| 0 <= k < a.len() && a[k] != b[k]
}

/// Entities of one group are announced on different topics when their
/// components differ (components of one length, such as `button` and
/// `sensor`) or their object ids differ.
pub proof fn lemma_discovery_topic_injective(
    c1: Seq<char>,
    o1: Seq<char>,
    c2: Seq<char>,
    o2: Seq<char>,
    group: Seq<char>,
)
    requires
        c1.len() == c2.len(),
        c1 != c2 || o1 != o2,
    ensures
        discovery_topic_spec(c1, o1, group) != discovery_topic_spec(c2, o2, group),
{
    let tail = seq!['/'] + group + "/config"@;
    let t1 = discovery_topic_spec(c1, o1, group);
    let t2 = discovery_topic_spec(c2, o2, group);
    let base = "homeassistant"@ + seq!['/'];
    assert(t1 =~= base + c1 + seq!['/'] + o1 + tail);
    assert(t2 =~= base + c2 + seq!['/'] + o2 + tail);
    if c1 != c2 {
        let k = lemma_differ_at(c1, c2);
        assert(t1[base.len() + k] == c1[k]);
        assert(t2[base.len() + k] == c2[k]);
    } else if o1.len() == o2.len() {
        let head = base + c1 + seq!['/'];
        let k = lemma_differ_at(o1, o2);
        assert(t1[head.len() + k] == o1[k]);
        assert(t2[head.len() + k] == o2[k]);
    }
}

/// The message announcing one entity to Home Assistant: published on the
/// entity's discovery topic, retained, with quality of service 1.
pub open spec fn announce_spec(
    component: Seq<char>,
    object_id: Seq<char>,
    group: Seq<char>,
    fields: Seq<(Seq<char>, FieldView)>,
) -> DiscoveryView {
    (discovery_topic_spec(component, object_id, group), fields, Qos::_1, true)
}

/// Builds the message announcing one entity.
pub fn announce(component: &str, object_id: &str, group: &str, fields: Vec<(&'static str, FieldValue)>) -> (r: Discovery)
    ensures
        discovery_view(r) == announce_spec(component@, object_id@, group@, fields_view(fields@)),
{
    proof {
        reveal_strlit("/");
    }
    let topic = String::from_str("homeassistant").concat("/").concat(component).concat("/").concat(
        object_id,
    ).concat("/").concat(group).concat("/config");
    Discovery { topic, fields, qos: Qos::_1, retained: true }
}

} // verus!
