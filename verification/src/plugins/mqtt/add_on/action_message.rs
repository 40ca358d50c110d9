//! Topics of the action messages: `prefix/project/group/device`, and the
//! `save_`/`load_` topics of configuration messages.
use vstd::prelude::*;
use crate::newtype::AtomicFixedString;
use crate::plugins::mqtt::Qos;
use crate::constants::mqtt_prefix;

verus! {

/// Where a message kind is published: the four segments of its topic and its
/// quality of service.
#[derive(Debug, Clone, Copy)]
pub struct Route {
    pub prefix: &'static str,
    pub project: &'static str,
    pub group: &'static str,
    pub device: &'static str,
    pub qos: Qos,
}

/// A message kind published on a fixed topic.
pub trait MessageImpl {
    spec fn spec_route() -> Route;

    fn route() -> (r: Route)
        ensures
            r == Self::spec_route(),
    ;
}

/// Segments joined by `/`.
pub open spec fn topic_spec(prefix: Seq<char>, project: Seq<char>, group: Seq<char>, device: Seq<char>) -> Seq<char> {
    prefix + seq!['/'] + project + seq!['/'] + group + seq!['/'] + device
}

pub open spec fn route_topic(r: Route) -> Seq<char> {
    topic_spec(r.prefix@, r.project@, r.group@, r.device@)
}

/// The topic of a message kind.
pub open spec fn message_topic<M: MessageImpl>() -> Seq<char> {
    route_topic(M::spec_route())
}

/// Joins the segments of a topic.
pub fn make_topic(prefix: &str, project: &str, group: &str, device: &str) -> (r: AtomicFixedString)
    ensures
        r@ == topic_spec(prefix@, project@, group@, device@),
{
    proof {
        reveal_strlit("/");
    }
    let s = String::from_str(prefix).concat("/").concat(project).concat("/").concat(group).concat(
        "/",
    ).concat(device);
    AtomicFixedString::from_string(s)
}

/// The topic of a message kind.
pub fn topic<M: MessageImpl>() -> (r: AtomicFixedString)
    ensures
        r@ == message_topic::<M>(),
{
    let route = M::route();
    make_topic(route.prefix, route.project, route.group, route.device)
}

/// The quality of service of a message kind.
pub fn qos<M: MessageImpl>() -> (r: Qos)
    ensures
        r == M::spec_route().qos,
{
    M::route().qos
}

/// The topic on which a new configuration is sent to be saved.
pub open spec fn save_topic_spec(config_topic: Seq<char>) -> Seq<char> {
    "save_"@ + config_topic
}

/// The topic on which the stored configuration is asked for.
pub open spec fn load_topic_spec(config_topic: Seq<char>) -> Seq<char> {
    "load_"@ + config_topic
}

/// The topic of the save requests of a configuration kind.
pub fn save_topic<Cfg: MessageImpl>() -> (r: AtomicFixedString)
    ensures
        r@ == save_topic_spec(message_topic::<Cfg>()),
{
    let t = topic::<Cfg>();
    AtomicFixedString::from_string(String::from_str("save_").concat(t.as_str()))
}

/// The topic of the load requests of a configuration kind.
pub fn load_topic<Cfg: MessageImpl>() -> (r: AtomicFixedString)
    ensures
        r@ == load_topic_spec(message_topic::<Cfg>()),
{
    let t = topic::<Cfg>();
    AtomicFixedString::from_string(String::from_str("load_").concat(t.as_str()))
}

/// The save and load topics of a configuration differ from each other and from
/// the configuration's own topic.
pub proof fn lemma_config_topics_distinct(config_topic: Seq<char>)
    ensures
        save_topic_spec(config_topic) != load_topic_spec(config_topic),
        save_topic_spec(config_topic) != config_topic,
        load_topic_spec(config_topic) != config_topic,
{
    reveal_strlit("save_");
    reveal_strlit("load_");
    assert(save_topic_spec(config_topic)[0] == 's');
    assert(load_topic_spec(config_topic)[0] == 'l');
    assert(save_topic_spec(config_topic).len() == config_topic.len() + 5);
    assert(load_topic_spec(config_topic).len() == config_topic.len() + 5);
}

/// Whether a segment is free of `/`.
pub open spec fn no_slash(s: Seq<char>) -> bool {
    forall|i: int| 0 <= i < s.len() ==> s[i] != '/'
}

proof fn lemma_split_at_slash(x: Seq<char>, y: Seq<char>, r1: Seq<char>, r2: Seq<char>)
    requires
        no_slash(x),
        no_slash(y),
        x + seq!['/'] + r1 == y + seq!['/'] + r2,
    ensures
        x == y,
        r1 == r2,
{
    let a = x + seq!['/'] + r1;
    let b = y + seq!['/'] + r2;
    if x.len() < y.len() {
        assert(a[x.len() as int] == '/');
        assert(b[x.len() as int] == y[x.len() as int]);
    } else if y.len() < x.len() {
        assert(b[y.len() as int] == '/');
        assert(a[y.len() as int] == x[y.len() as int]);
    }
    assert(x =~= a.subrange(0, x.len() as int));
    assert(y =~= b.subrange(0, y.len() as int));
    assert(r1 =~= a.subrange(x.len() as int + 1, a.len() as int));
    assert(r2 =~= b.subrange(y.len() as int + 1, b.len() as int));
}

/// Distinct routes have distinct topics: when no segment holds a `/`, a topic
/// determines its four segments.
pub proof fn lemma_topic_injective(
    p1: Seq<char>,
    j1: Seq<char>,
    g1: Seq<char>,
    d1: Seq<char>,
    p2: Seq<char>,
    j2: Seq<char>,
    g2: Seq<char>,
    d2: Seq<char>,
)
    requires
        no_slash(p1),
        no_slash(j1),
        no_slash(g1),
        no_slash(d1),
        no_slash(p2),
        no_slash(j2),
        no_slash(g2),
        no_slash(d2),
        topic_spec(p1, j1, g1, d1) == topic_spec(p2, j2, g2, d2),
    ensures
        p1 == p2,
        j1 == j2,
        g1 == g2,
        d1 == d2,
{
    let r1 = j1 + seq!['/'] + g1 + seq!['/'] + d1;
    let r2 = j2 + seq!['/'] + g2 + seq!['/'] + d2;
    assert(topic_spec(p1, j1, g1, d1) =~= p1 + seq!['/'] + r1);
    assert(topic_spec(p2, j2, g2, d2) =~= p2 + seq!['/'] + r2);
    lemma_split_at_slash(p1, p2, r1, r2);
    let s1 = g1 + seq!['/'] + d1;
    let s2 = g2 + seq!['/'] + d2;
    assert(r1 =~= j1 + seq!['/'] + s1);
    assert(r2 =~= j2 + seq!['/'] + s2);
    lemma_split_at_slash(j1, j2, s1, s2);
    lemma_split_at_slash(g1, g2, d1, d2);
}

/// Whether a topic begins with the given text.
pub open spec fn has_prefix(topic: Seq<char>, prefix: Seq<char>) -> bool {
    prefix.len() <= topic.len() && topic.subrange(0, prefix.len() as int) == prefix
}

/// Every topic begins with its first segment and a `/`.
pub proof fn lemma_topic_has_prefix(r: Route)
    ensures
        has_prefix(route_topic(r), r.prefix@ + seq!['/']),
{
    let t = route_topic(r);
    let rest = r.project@ + seq!['/'] + r.group@ + seq!['/'] + r.device@;
    assert(t =~= (r.prefix@ + seq!['/']) + rest);
    assert(t.subrange(0, r.prefix@.len() + 1int) =~= r.prefix@ + seq!['/']);
}

/// Topics that begin with different first segments are different topics.
pub proof fn lemma_prefixes_separate(a: Seq<char>, b: Seq<char>, p: Seq<char>, q: Seq<char>)
    requires
        has_prefix(a, p + seq!['/']),
        has_prefix(b, q + seq!['/']),
        no_slash(p),
        no_slash(q),
        p != q,
    ensures
        a != b,
{
    let pa = p + seq!['/'];
    let qb = q + seq!['/'];
    assert(forall|i: int| 0 <= i < pa.len() ==> a[i] == #[trigger] pa[i]) by {
        assert forall|i: int| 0 <= i < pa.len() implies a[i] == #[trigger] pa[i] by {
            assert(a.subrange(0, pa.len() as int)[i] == a[i]);
        }
    }
    assert(forall|i: int| 0 <= i < qb.len() ==> b[i] == #[trigger] qb[i]) by {
        assert forall|i: int| 0 <= i < qb.len() implies b[i] == #[trigger] qb[i] by {
            assert(b.subrange(0, qb.len() as int)[i] == b[i]);
        }
    }
    if a == b {
        if p.len() < q.len() {
            assert(pa[p.len() as int] == '/');
            assert(qb[p.len() as int] == q[p.len() as int]);
        } else if q.len() < p.len() {
            assert(qb[q.len() as int] == '/');
            assert(pa[q.len() as int] == p[q.len() as int]);
        } else {
            assert forall|i: int| 0 <= i < p.len() implies p[i] == q[i] by {
                assert(pa[i] == p[i]);
                assert(qb[i] == q[i]);
            }
            assert(p =~= q);
        }
    }
}

/// The first segments of the message kinds differ from each other and hold no
/// `/`.
pub proof fn lemma_prefixes_distinct()
    ensures
        no_slash(mqtt_prefix::REQUEST@),
        no_slash(mqtt_prefix::STATUS@),
        no_slash(mqtt_prefix::RESPONSE@),
        no_slash(mqtt_prefix::DATABASE@),
        no_slash(mqtt_prefix::CONFIG@),
        mqtt_prefix::REQUEST@ != mqtt_prefix::STATUS@,
        mqtt_prefix::REQUEST@ != mqtt_prefix::RESPONSE@,
        mqtt_prefix::STATUS@ != mqtt_prefix::RESPONSE@,
        mqtt_prefix::REQUEST@ != mqtt_prefix::CONFIG@,
        mqtt_prefix::RESPONSE@ != mqtt_prefix::CONFIG@,
        mqtt_prefix::STATUS@ != mqtt_prefix::CONFIG@,
        mqtt_prefix::STATUS@ != mqtt_prefix::DATABASE@,
        mqtt_prefix::REQUEST@ != mqtt_prefix::DATABASE@,
        mqtt_prefix::RESPONSE@ != mqtt_prefix::DATABASE@,
{
    reveal_strlit("request");
    reveal_strlit("status");
    reveal_strlit("response");
    reveal_strlit("data");
    reveal_strlit("config");
    assert(mqtt_prefix::REQUEST@[2] != mqtt_prefix::STATUS@[2]);
    assert(mqtt_prefix::REQUEST@[2] != mqtt_prefix::RESPONSE@[2]);
    assert(mqtt_prefix::STATUS@[2] != mqtt_prefix::RESPONSE@[2]);
    assert(mqtt_prefix::REQUEST@[0] != mqtt_prefix::CONFIG@[0]);
    assert(mqtt_prefix::RESPONSE@[0] != mqtt_prefix::CONFIG@[0]);
    assert(mqtt_prefix::STATUS@[0] != mqtt_prefix::CONFIG@[0]);
    assert(mqtt_prefix::STATUS@[0] != mqtt_prefix::DATABASE@[0]);
    assert(mqtt_prefix::REQUEST@[0] != mqtt_prefix::DATABASE@[0]);
    assert(mqtt_prefix::RESPONSE@[0] != mqtt_prefix::DATABASE@[0]);
}

/// Whether two kinds are published for the same project, group and device.
pub open spec fn same_place(a: Route, b: Route) -> bool {
    a.project@ == b.project@ && a.group@ == b.group@ && a.device@ == b.device@
}

} // verus!
