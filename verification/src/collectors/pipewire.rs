//! Normalizing the `PipeWire` graph (`pw-dump`) and the `WirePlumber`
//! status (`wpctl status`) into privacy-safe facts: counts over the whole
//! graph, and only video-relevant nodes and links.
use vstd::prelude::*;
use crate::json::{
    json_as_str, json_as_u64, json_member, member, member_number, member_opt, member_str, member_text, member_u64, opt_json,
    parse_json_bytes, parsed_bytes, Json,
};
use crate::model::pipewire::{
    PipeWireInfo, PipeWireLink, PipeWireNode, WirePlumberInfo, PIPEWIRE_MODEL_VERSION, WIREPLUMBER_MODEL_VERSION,
};
use crate::text::{
    clone_opt_string, contains_seq, contains_str, ends_with, ends_with_str, eq_ignore_ascii_case, eq_str, lines,
    lines_seq, lower, opt_view, split_once, split_once_seq, starts_with, starts_with_str, to_ascii_lowercase, trim,
    trim_start, trim_str, views,
};

verus! {

pub const PW_DUMP_COMMAND: &'static str = "pw-dump";

pub const WPCTL_COMMAND: &'static str = "wpctl";

/// Byte limit on `pw-dump` and `wpctl` output before parsing (16 MiB).
pub const PIPEWIRE_OUTPUT_LIMIT: usize = 16777216;

/// A media class names video: `video/...` or `.../video`, in any case.
pub open spec fn video_class(class: Option<Seq<char>>) -> bool {
    class matches Some(c) && (starts_with(lower(c), "video/"@) || ends_with(lower(c), "/video"@))
}

pub fn is_video_class(media_class: Option<&str>) -> (r: bool)
    ensures
        r == video_class(match media_class { Some(c) => Some(c@), None => None }),
{
    match media_class {
        Some(c) => {
            let l = to_ascii_lowercase(c);
            starts_with_str(l.as_str(), "video/") || ends_with_str(l.as_str(), "/video")
        },
        None => false,
    }
}

pub open spec fn video_source_class(class: Seq<char>) -> bool {
    lower(class) == "video/source"@ || lower(class) == "stream/output/video"@
}

pub fn is_video_source_class(media_class: &str) -> (r: bool)
    ensures
        r == video_source_class(media_class@),
{
    let l = to_ascii_lowercase(media_class);
    eq_str(l.as_str(), "video/source") || eq_str(l.as_str(), "stream/output/video")
}

/// A node name that says it is a screen cast.
pub open spec fn screen_cast_name(name: Option<Seq<char>>) -> bool {
    name matches Some(n) && (contains_seq(lower(n), "screen-cast"@) || contains_seq(lower(n), "screencast"@))
}

pub fn is_screen_cast_name(name: Option<&str>) -> (r: bool)
    ensures
        r == screen_cast_name(match name { Some(n) => Some(n@), None => None }),
{
    match name {
        Some(n) => {
            let l = to_ascii_lowercase(n);
            contains_str(l.as_str(), "screen-cast") || contains_str(l.as_str(), "screencast")
        },
        None => false,
    }
}

/// What the normalizer reads of one `pw-dump` object. String members are
/// `Some` only when present and non-empty.
#[derive(Debug, Clone, PartialEq, Eq)]
pub struct PwObject {
    pub object_type: Option<String>,
    pub id: Option<u64>,
    /// `info.version`.
    pub version: Option<String>,
    /// `info.state`.
    pub state: Option<String>,
    /// `info.props` `media.class`, `media.name` and `node.name`.
    pub media_class: Option<String>,
    pub media_name: Option<String>,
    pub node_name: Option<String>,
    /// `info.props` `pipewire.access.portal.is_portal` is `true` (a boolean,
    /// or the string in any case).
    pub is_portal: bool,
    /// `info.output-node-id`, else `info.props` `link.output.node`.
    pub output_node_id: Option<u64>,
    /// `info.input-node-id`, else `info.props` `link.input.node`.
    pub input_node_id: Option<u64>,
    /// `info.format.mediaType`, else `info.props` `media.type`, lower-cased.
    pub media_type: Option<String>,
}

pub open spec fn type_is(o: PwObject, t: Seq<char>) -> bool {
    o.object_type matches Some(x) && x@ == t
}

pub open spec fn core_type() -> Seq<char> {
    "PipeWire:Interface:Core"@
}

pub open spec fn node_type() -> Seq<char> {
    "PipeWire:Interface:Node"@
}

pub open spec fn link_type() -> Seq<char> {
    "PipeWire:Interface:Link"@
}

pub open spec fn client_type() -> Seq<char> {
    "PipeWire:Interface:Client"@
}

/// The version of the first core object that reports one.
pub open spec fn graph_version(objs: Seq<PwObject>) -> Option<Seq<char>>
    decreases objs.len(),
{
    if objs.len() == 0 {
        None
    } else {
        match graph_version(objs.drop_last()) {
            Some(v) => Some(v),
            None => if type_is(objs.last(), core_type()) {
                opt_view(objs.last().version)
            } else {
                None
            },
        }
    }
}

pub open spec fn count_where(objs: Seq<PwObject>, t: Seq<char>, portal_only: bool) -> nat
    decreases objs.len(),
{
    if objs.len() == 0 {
        0
    } else {
        count_where(objs.drop_last(), t, portal_only) + if type_is(objs.last(), t) && (!portal_only
            || objs.last().is_portal) {
            1nat
        } else {
            0nat
        }
    }
}

/// A video node as it is kept: its id, class, state and what it is.
pub type NodeView = (u64, Option<Seq<char>>, Option<Seq<char>>, bool, bool);

pub open spec fn node_view(n: PipeWireNode) -> NodeView {
    (n.id, opt_view(n.media_class), opt_view(n.state), n.is_video_source, n.is_screen_cast_source)
}

pub open spec fn video_node(o: PwObject) -> bool {
    type_is(o, node_type()) && o.id is Some && video_class(opt_view(o.media_class))
}

pub open spec fn node_of(o: PwObject) -> NodeView {
    (
        o.id->Some_0,
        opt_view(o.media_class),
        opt_view(o.state),
        o.media_class matches Some(c) && video_source_class(c@),
        screen_cast_name(opt_view(o.media_name)) || screen_cast_name(opt_view(o.node_name)),
    )
}

/// The video nodes of the graph, in graph order.
pub open spec fn video_nodes(objs: Seq<PwObject>) -> Seq<NodeView>
    decreases objs.len(),
{
    if objs.len() == 0 {
        Seq::empty()
    } else if video_node(objs.last()) {
        video_nodes(objs.drop_last()).push(node_of(objs.last()))
    } else {
        video_nodes(objs.drop_last())
    }
}

pub type LinkView = (u64, Option<u64>, Option<u64>, Option<Seq<char>>, Option<Seq<char>>);

pub open spec fn link_view(l: PipeWireLink) -> LinkView {
    (l.id, l.output_node_id, l.input_node_id, opt_view(l.media_type), opt_view(l.state))
}

pub open spec fn link_of(o: PwObject) -> LinkView {
    (o.id->Some_0, o.output_node_id, o.input_node_id, opt_view(o.media_type), opt_view(o.state))
}

/// A link is kept when it carries video or touches a video node.
pub open spec fn relevant_link(l: LinkView, nodes: Seq<NodeView>) -> bool {
    ||| l.3 == Some("video"@)
    ||| (l.1 matches Some(id) && exists|k: int| 0 <= k < nodes.len() && (#[trigger] nodes[k]).0 == id)
    ||| (l.2 matches Some(id) && exists|k: int| 0 <= k < nodes.len() && (#[trigger] nodes[k]).0 == id)
}

/// The kept links, in graph order.
pub open spec fn video_links(objs: Seq<PwObject>, nodes: Seq<NodeView>) -> Seq<LinkView>
    decreases objs.len(),
{
    if objs.len() == 0 {
        Seq::empty()
    } else if type_is(objs.last(), link_type()) && objs.last().id is Some && relevant_link(link_of(objs.last()), nodes) {
        video_links(objs.drop_last(), nodes).push(link_of(objs.last()))
    } else {
        video_links(objs.drop_last(), nodes)
    }
}

pub open spec fn nodes_sorted(s: Seq<PipeWireNode>) -> bool {
    forall|i: int, j: int| 0 <= i < j < s.len() ==> s[i].id <= s[j].id
}

pub open spec fn links_sorted(s: Seq<PipeWireLink>) -> bool {
    forall|i: int, j: int| 0 <= i < j < s.len() ==> s[i].id <= s[j].id
}

pub open spec fn screen_cast_count(s: Seq<NodeView>) -> nat
    decreases s.len(),
{
    if s.len() == 0 {
        0
    } else {
        screen_cast_count(s.drop_last()) + if s.last().4 { 1nat } else { 0nat }
    }
}

fn insert_node(v: &mut Vec<PipeWireNode>, n: PipeWireNode)
    requires
        nodes_sorted(old(v)@),
    ensures
        nodes_sorted(final(v)@),
        final(v)@.map_values(|x: PipeWireNode| node_view(x)).to_multiset() == old(v)@.map_values(
            |x: PipeWireNode| node_view(x),
        ).to_multiset().insert(node_view(n)),
{
    let mut p: usize = 0;
    while p < v.len() && v[p].id <= n.id
        invariant
            p <= v@.len(),
            forall|k: int| 0 <= k < p ==> v@[k].id <= n.id,
        decreases v@.len() - p,
    {
        p = p + 1;
    }
    let ghost before = v@;
    v.insert(p, n);
    proof {
        assert(v@.map_values(|x: PipeWireNode| node_view(x)) =~= before.map_values(|x: PipeWireNode| node_view(x)).insert(
            p as int,
            node_view(n),
        ));
        vstd::seq_lib::to_multiset_insert(before.map_values(|x: PipeWireNode| node_view(x)), p as int, node_view(n));
    }
}

fn insert_link(v: &mut Vec<PipeWireLink>, l: PipeWireLink)
    requires
        links_sorted(old(v)@),
    ensures
        links_sorted(final(v)@),
        final(v)@.map_values(|x: PipeWireLink| link_view(x)).to_multiset() == old(v)@.map_values(
            |x: PipeWireLink| link_view(x),
        ).to_multiset().insert(link_view(l)),
{
    let mut p: usize = 0;
    while p < v.len() && v[p].id <= l.id
        invariant
            p <= v@.len(),
            forall|k: int| 0 <= k < p ==> v@[k].id <= l.id,
        decreases v@.len() - p,
    {
        p = p + 1;
    }
    let ghost before = v@;
    v.insert(p, l);
    proof {
        assert(v@.map_values(|x: PipeWireLink| link_view(x)) =~= before.map_values(|x: PipeWireLink| link_view(x)).insert(
            p as int,
            link_view(l),
        ));
        vstd::seq_lib::to_multiset_insert(before.map_values(|x: PipeWireLink| link_view(x)), p as int, link_view(l));
    }
}

fn node_from(o: &PwObject) -> (n: PipeWireNode)
    requires
        video_node(*o),
    ensures
        node_view(n) == node_of(*o),
{
    let id = match o.id {
        Some(id) => id,
        None => 0,
    };
    let is_video_source = match &o.media_class {
        Some(c) => is_video_source_class(c.as_str()),
        None => false,
    };
    let media_name = match &o.media_name {
        Some(n) => Some(n.as_str()),
        None => None,
    };
    let node_name = match &o.node_name {
        Some(n) => Some(n.as_str()),
        None => None,
    };
    let is_screen_cast_source = is_screen_cast_name(media_name) || is_screen_cast_name(node_name);
    PipeWireNode {
        id,
        media_class: clone_opt_string(&o.media_class),
        state: clone_opt_string(&o.state),
        is_video_source,
        is_screen_cast_source,
    }
}

fn node_listed(nodes: &Vec<PipeWireNode>, id: u64) -> (r: bool)
    ensures
        r == exists|k: int| 0 <= k < nodes@.len() && (#[trigger] nodes@[k]).id == id,
{
    let mut i: usize = 0;
    while i < nodes.len()
        invariant
            i <= nodes@.len(),
            forall|k: int| 0 <= k < i ==> nodes@[k].id != id,
        decreases nodes@.len() - i,
    {
        if nodes[i].id == id {
            return true;
        }
        i = i + 1;
    }
    false
}

proof fn lemma_multiset_ids(nodes: Seq<PipeWireNode>, views: Seq<NodeView>, id: u64)
    requires
        nodes.map_values(|x: PipeWireNode| node_view(x)).to_multiset() == views.to_multiset(),
    ensures
        (exists|k: int| 0 <= k < nodes.len() && (#[trigger] nodes[k]).id == id) == (exists|k: int| 0 <= k < views.len()
            && (#[trigger] views[k]).0 == id),
{
    let mv = nodes.map_values(|x: PipeWireNode| node_view(x));
    if exists|k: int| 0 <= k < nodes.len() && (#[trigger] nodes[k]).id == id {
        let k = choose|k: int| 0 <= k < nodes.len() && (#[trigger] nodes[k]).id == id;
        assert(mv[k] == node_view(nodes[k]));
        vstd::seq_lib::to_multiset_contains(mv, mv[k]);
        assert(mv.contains(mv[k]));
        assert(views.to_multiset().count(mv[k]) > 0);
        vstd::seq_lib::to_multiset_contains(views, mv[k]);
        let j = choose|j: int| 0 <= j < views.len() && views[j] == mv[k];
        assert(views[j].0 == id);
    }
    if exists|k: int| 0 <= k < views.len() && (#[trigger] views[k]).0 == id {
        let k = choose|k: int| 0 <= k < views.len() && (#[trigger] views[k]).0 == id;
        vstd::seq_lib::to_multiset_contains(views, views[k]);
        assert(views.contains(views[k]));
        assert(mv.to_multiset().count(views[k]) > 0);
        vstd::seq_lib::to_multiset_contains(mv, views[k]);
        let j = choose|j: int| 0 <= j < mv.len() && mv[j] == views[k];
        assert(nodes[j].id == id);
    }
}

/// Normalize the objects of a `pw-dump` graph: counts over every object,
/// the video nodes (sorted by id), the links that carry video or touch a
/// video node (sorted by id), and the first reported core version.
/// `r` describes the graph `objs`: counts over every object, the first core
/// version, and the video nodes and links sorted by id.
pub open spec fn graph_described(r: PipeWireInfo, objs: Seq<PwObject>) -> bool {
    &&& r.model_version == PIPEWIRE_MODEL_VERSION
    &&& opt_view(r.version) == graph_version(objs)
    &&& r.object_count == objs.len()
    &&& r.node_count == count_where(objs, node_type(), false)
    &&& r.link_count == count_where(objs, link_type(), false)
    &&& r.portal_client_count == count_where(objs, client_type(), true)
    &&& nodes_sorted(r.nodes@)
    &&& r.nodes@.map_values(|x: PipeWireNode| node_view(x)).to_multiset() == video_nodes(objs).to_multiset()
    &&& links_sorted(r.links@)
    &&& r.links@.map_values(|x: PipeWireLink| link_view(x)).to_multiset() == video_links(objs, video_nodes(objs)).to_multiset()
    &&& r.screen_cast_source_count == screen_cast_count(video_nodes(objs))
}

pub fn graph_info(objects: &Vec<PwObject>) -> (r: PipeWireInfo)
    ensures
        graph_described(r, objects@),
{
    let mut version: Option<String> = None;
    let mut node_count: usize = 0;
    let mut link_count: usize = 0;
    let mut portal_clients: usize = 0;
    let mut screen_casts: usize = 0;
    let mut nodes: Vec<PipeWireNode> = Vec::new();
    let mut i: usize = 0;
    assert(objects@.take(0) =~= Seq::<PwObject>::empty());
    assert(nodes@.map_values(|x: PipeWireNode| node_view(x)) =~= Seq::<NodeView>::empty());
    assert(video_nodes(objects@.take(0)) =~= Seq::<NodeView>::empty());
    while i < objects.len()
        invariant
            i <= objects@.len(),
            opt_view(version) == graph_version(objects@.take(i as int)),
            node_count == count_where(objects@.take(i as int), node_type(), false),
            link_count == count_where(objects@.take(i as int), link_type(), false),
            portal_clients == count_where(objects@.take(i as int), client_type(), true),
            screen_casts == screen_cast_count(video_nodes(objects@.take(i as int))),
            node_count <= i,
            link_count <= i,
            portal_clients <= i,
            screen_casts <= i,
            nodes_sorted(nodes@),
            nodes@.map_values(|x: PipeWireNode| node_view(x)).to_multiset() == video_nodes(objects@.take(i as int)).to_multiset(),
        decreases objects@.len() - i,
    {
        let o = &objects[i];
        assert(objects@.take(i + 1).drop_last() =~= objects@.take(i as int));
        assert(objects@.take(i + 1).last() == *o);
        let ghost prev = video_nodes(objects@.take(i as int));
        assert(video_nodes(objects@.take(i + 1)) == if video_node(*o) { prev.push(node_of(*o)) } else { prev });
        assert(prev.push(node_of(*o)).drop_last() =~= prev);
        let is_type = |t: &str| -> (b: bool)
            ensures
                b == type_is(*o, t@),
        {
            match &o.object_type {
                Some(x) => eq_str(x.as_str(), t),
                None => false,
            }
        };
        let core = is_type("PipeWire:Interface:Core");
        let node = is_type("PipeWire:Interface:Node");
        let link = is_type("PipeWire:Interface:Link");
        let client = is_type("PipeWire:Interface:Client");
        if core && version.is_none() {
            version = clone_opt_string(&o.version);
        }
        if node {
            node_count = node_count + 1;
            let class = match &o.media_class {
                Some(c) => Some(c.as_str()),
                None => None,
            };
            if o.id.is_some() && is_video_class(class) {
                let n = node_from(o);
                if n.is_screen_cast_source {
                    screen_casts = screen_casts + 1;
                }
                proof {
                    vstd::seq_lib::to_multiset_build(prev, node_of(*o));
                }
                insert_node(&mut nodes, n);
            }
        }
        if link {
            link_count = link_count + 1;
        }
        if client && o.is_portal {
            portal_clients = portal_clients + 1;
        }
        i = i + 1;
    }
    assert(objects@.take(i as int) =~= objects@);
    let ghost nv = video_nodes(objects@);
    let mut links: Vec<PipeWireLink> = Vec::new();
    let mut j: usize = 0;
    assert(objects@.take(0) =~= Seq::<PwObject>::empty());
    assert(links@.map_values(|x: PipeWireLink| link_view(x)) =~= Seq::<LinkView>::empty());
    assert(video_links(objects@.take(0), nv) =~= Seq::<LinkView>::empty());
    while j < objects.len()
        invariant
            j <= objects@.len(),
            nv == video_nodes(objects@),
            nodes@.map_values(|x: PipeWireNode| node_view(x)).to_multiset() == nv.to_multiset(),
            links_sorted(links@),
            links@.map_values(|x: PipeWireLink| link_view(x)).to_multiset() == video_links(objects@.take(j as int), nv).to_multiset(),
        decreases objects@.len() - j,
    {
        let o = &objects[j];
        assert(objects@.take(j + 1).drop_last() =~= objects@.take(j as int));
        assert(objects@.take(j + 1).last() == *o);
        let ghost prev_links = video_links(objects@.take(j as int), nv);
        assert(prev_links.push(link_of(*o)).drop_last() =~= prev_links);
        let link = match &o.object_type {
            Some(x) => eq_str(x.as_str(), "PipeWire:Interface:Link"),
            None => false,
        };
        if link && o.id.is_some() {
            let is_video = match &o.media_type {
                Some(m) => eq_str(m.as_str(), "video"),
                None => false,
            };
            let touches_output = match o.output_node_id {
                Some(id) => node_listed(&nodes, id),
                None => false,
            };
            let touches_input = match o.input_node_id {
                Some(id) => node_listed(&nodes, id),
                None => false,
            };
            proof {
                if o.output_node_id is Some {
                    lemma_multiset_ids(nodes@, nv, o.output_node_id->Some_0);
                }
                if o.input_node_id is Some {
                    lemma_multiset_ids(nodes@, nv, o.input_node_id->Some_0);
                }
            }
            if is_video || touches_output || touches_input {
                let l = PipeWireLink {
                    id: match o.id {
                        Some(id) => id,
                        None => 0,
                    },
                    output_node_id: o.output_node_id,
                    input_node_id: o.input_node_id,
                    media_type: clone_opt_string(&o.media_type),
                    state: clone_opt_string(&o.state),
                };
                assert(link_view(l) == link_of(*o));
                proof {
                    vstd::seq_lib::to_multiset_build(prev_links, link_of(*o));
                }
                insert_link(&mut links, l);
            }
        }
        j = j + 1;
    }
    assert(objects@.take(j as int) =~= objects@);
    PipeWireInfo {
        model_version: PIPEWIRE_MODEL_VERSION,
        version,
        object_count: objects.len(),
        node_count,
        link_count,
        portal_client_count: portal_clients,
        screen_cast_source_count: screen_casts,
        nodes,
        links,
    }
}

/// A string that counts only when it is not empty.
pub open spec fn nonempty(s: Option<Seq<char>>) -> Option<Seq<char>> {
    match s {
        Some(t) => if t.len() > 0 { Some(t) } else { None },
        None => None,
    }
}

/// A non-empty string member of `props`.
fn string_property(props: Option<&Json>, key: &str) -> (r: Option<String>)
    ensures
        opt_view(r) == nonempty(member_text(opt_json(props), key@)),
{
    match member_str(props, key) {
        Some(s) => if s.as_str().unicode_len() > 0 {
            Some(s)
        } else {
            None
        },
        None => None,
    }
}

/// A JSON `true`, or the string `true` in any case.
pub open spec fn true_value(v: Json) -> bool {
    match v {
        Json::Bool(b) => b,
        Json::Text(t) => lower(t@) == lower("true"@),
        _ => false,
    }
}

fn is_true(value: &Json) -> (r: bool)
    ensures
        r == true_value(*value),
{
    match value {
        Json::Bool(b) => *b,
        Json::Text(t) => eq_ignore_ascii_case(t.as_str(), "true"),
        _ => false,
    }
}

/// The first of two optional numbers that is present.
pub open spec fn either(a: Option<u64>, b: Option<u64>) -> Option<u64> {
    if a is Some { a } else { b }
}

/// A lower-cased media type: `info.format.mediaType`, else `info.props`
/// `media.type`.
pub open spec fn media_type_of(format: Option<Json>, props: Option<Json>) -> Option<Seq<char>> {
    match nonempty(member_text(format, "mediaType"@)) {
        Some(t) => Some(lower(t)),
        None => match nonempty(member_text(props, "media.type"@)) {
            Some(t) => Some(lower(t)),
            None => None,
        },
    }
}

/// `o` holds what the `pw-dump` object `j` says.
pub open spec fn object_read(o: PwObject, j: Json) -> bool {
    let info = member(j, "info"@);
    let props = member_opt(info, "props"@);
    let format = member_opt(info, "format"@);
    &&& opt_view(o.object_type) == member_text(Some(j), "type"@)
    &&& o.id == member_u64(Some(j), "id"@)
    &&& opt_view(o.version) == nonempty(member_text(info, "version"@))
    &&& opt_view(o.state) == nonempty(member_text(info, "state"@))
    &&& opt_view(o.media_class) == nonempty(member_text(props, "media.class"@))
    &&& opt_view(o.media_name) == nonempty(member_text(props, "media.name"@))
    &&& opt_view(o.node_name) == nonempty(member_text(props, "node.name"@))
    &&& o.is_portal == (member_opt(props, "pipewire.access.portal.is_portal"@) matches Some(v) && true_value(v))
    &&& o.output_node_id == either(member_u64(info, "output-node-id"@), member_u64(props, "link.output.node"@))
    &&& o.input_node_id == either(member_u64(info, "input-node-id"@), member_u64(props, "link.input.node"@))
    &&& opt_view(o.media_type) == media_type_of(format, props)
}

/// Read the members one `pw-dump` object is normalized from.
pub fn read_object(object: &Json) -> (r: PwObject)
    ensures
        object_read(r, *object),
{
    let object_type = match json_member(object, "type") {
        Some(v) => json_as_str(v),
        None => None,
    };
    let id = match json_member(object, "id") {
        Some(v) => json_as_u64(v),
        None => None,
    };
    let info = json_member(object, "info");
    let props = match info {
        Some(i) => json_member(i, "props"),
        None => None,
    };
    let format = match info {
        Some(i) => json_member(i, "format"),
        None => None,
    };
    let is_portal = match props {
        Some(p) => match json_member(p, "pipewire.access.portal.is_portal") {
            Some(v) => is_true(v),
            None => false,
        },
        None => false,
    };
    let output_node_id = match member_number(info, "output-node-id") {
        Some(id) => Some(id),
        None => member_number(props, "link.output.node"),
    };
    let input_node_id = match member_number(info, "input-node-id") {
        Some(id) => Some(id),
        None => member_number(props, "link.input.node"),
    };
    let media_type = match string_property(format, "mediaType") {
        Some(t) => Some(to_ascii_lowercase(t.as_str())),
        None => match string_property(props, "media.type") {
            Some(t) => Some(to_ascii_lowercase(t.as_str())),
            None => None,
        },
    };
    PwObject {
        object_type,
        id,
        version: string_property(info, "version"),
        state: string_property(info, "state"),
        media_class: string_property(props, "media.class"),
        media_name: string_property(props, "media.name"),
        node_name: string_property(props, "node.name"),
        is_portal,
        output_node_id,
        input_node_id,
        media_type,
    }
}

/// Parse the JSON array that `pw-dump` prints into the normalized graph:
/// a parse error is passed on, a document that is not an array is refused,
/// and the graph is described by the objects read from the array.
pub fn parse_pw_dump(bytes: &[u8]) -> (r: Result<PipeWireInfo, String>)
    ensures
        match parsed_bytes(bytes@) {
            Err(e) => r matches Err(m) && m@ == e,
            Ok(Json::Array(items)) => r matches Ok(info) && exists|objs: Seq<PwObject>| {
                &&& objs.len() == items@.len()
                &&& forall|k: int| 0 <= k < objs.len() ==> object_read(#[trigger] objs[k], items@[k])
                &&& graph_described(info, objs)
            },
            Ok(_) => r matches Err(m) && m@ == "top-level value is not an object array"@,
        },
{
    let value = match parse_json_bytes(bytes) {
        Ok(v) => v,
        Err(e) => return Err(e),
    };
    let items = match &value {
        Json::Array(a) => a,
        _ => return Err("top-level value is not an object array".to_owned()),
    };
    let mut objects: Vec<PwObject> = Vec::new();
    let mut i: usize = 0;
    while i < items.len()
        invariant
            i <= items@.len(),
            objects@.len() == i,
            forall|k: int| 0 <= k < i ==> object_read(#[trigger] objects@[k], items@[k]),
        decreases items@.len() - i,
    {
        objects.push(read_object(&items[i]));
        i = i + 1;
    }
    let info = graph_info(&objects);
    assert(objects@.len() == items@.len());
    Ok(info)
}

/// The `wpctl status` header: the first line that, trimmed, starts with
/// `PipeWire `.
pub open spec fn status_header(ls: Seq<Seq<char>>) -> Option<Seq<char>>
    decreases ls.len(),
{
    if ls.len() == 0 {
        None
    } else if starts_with(trim(ls[0]), "PipeWire "@) {
        Some(trim(ls[0]))
    } else {
        status_header(ls.drop_first())
    }
}

/// The version between the header's `[` and the following `,`, trimmed;
/// none when empty.
pub open spec fn header_version(header: Seq<char>) -> Option<Seq<char>> {
    match split_once_seq(header, '[') {
        Some((_, rest)) => match split_once_seq(rest, ',') {
            Some((v, _)) => if trim(v).len() > 0 { Some(trim(v)) } else { None },
            None => None,
        },
        None => None,
    }
}

/// The lines that, without leading whitespace, name a WirePlumber client.
pub open spec fn wireplumber_lines(ls: Seq<Seq<char>>) -> nat
    decreases ls.len(),
{
    if ls.len() == 0 {
        0
    } else {
        wireplumber_lines(ls.drop_last()) + if contains_seq(trim_start(ls.last()), ". WirePlumber"@) {
            1nat
        } else {
            0nat
        }
    }
}

/// Parse the stable header of `wpctl status` and count only WirePlumber
/// client lines; client names and host data are not kept.
pub fn parse_wpctl_status(text: &str) -> (r: Result<WirePlumberInfo, String>)
    ensures
        match status_header(lines_seq(text@)) {
            None => r matches Err(m) && m@ == "missing PipeWire status header"@,
            Some(header) => r matches Ok(info) && info.model_version == WIREPLUMBER_MODEL_VERSION
                && opt_view(info.pipewire_version) == header_version(header)
                && info.wireplumber_client_count == wireplumber_lines(lines_seq(text@)),
        },
{
    let ls = lines(text);
    let ghost lv = views(ls@);
    let mut header: Option<String> = None;
    let mut i: usize = 0;
    assert(lv.skip(0) =~= lv);
    while i < ls.len()
        invariant
            lv == views(ls@),
            lv == lines_seq(text@),
            i <= ls@.len(),
            header is None ==> status_header(lv) == status_header(lv.skip(i as int)),
            header matches Some(h) ==> status_header(lv) == Some(h@),
        decreases ls@.len() - i,
    {
        if header.is_none() {
            let t = trim_str(ls[i].as_str());
            assert(lv.skip(i as int)[0] == lv[i as int]);
            assert(lv.skip(i as int).drop_first() =~= lv.skip(i + 1));
            if starts_with_str(t.as_str(), "PipeWire ") {
                header = Some(t);
            }
        }
        i = i + 1;
    }
    let header = match header {
        Some(h) => h,
        None => {
            assert(lv.skip(i as int) =~= Seq::<Seq<char>>::empty());
            return Err("missing PipeWire status header".to_owned());
        },
    };
    let version = match split_once(header.as_str(), '[') {
        Some((_, rest)) => match split_once(rest.as_str(), ',') {
            Some((v, _)) => {
                let t = trim_str(v.as_str());
                if t.as_str().unicode_len() > 0 {
                    Some(t)
                } else {
                    None
                }
            },
            None => None,
        },
        None => None,
    };
    let mut count: usize = 0;
    let mut k: usize = 0;
    while k < ls.len()
        invariant
            lv == views(ls@),
            k <= ls@.len(),
            count == wireplumber_lines(lv.take(k as int)),
            count <= k,
        decreases ls@.len() - k,
    {
        assert(lv.take(k + 1).drop_last() =~= lv.take(k as int));
        let l = crate::text::trim_start_str(ls[k].as_str());
        if contains_str(l.as_str(), ". WirePlumber") {
            count = count + 1;
        }
        k = k + 1;
    }
    assert(lv.take(k as int) =~= lv);
    Ok(WirePlumberInfo { model_version: WIREPLUMBER_MODEL_VERSION, pipewire_version: version, wireplumber_client_count: count })
}

/// A kept node is a video source exactly when its media class is, ASCII
/// case aside, `Video/Source` or `Stream/Output/Video`: those two classes,
/// and no other; so in every graph, each video node kept is marked a
/// source exactly when its class is one of those two.
pub proof fn law_video_source_classes(o: PwObject, class: Seq<char>, objs: Seq<PwObject>)
    ensures
        video_source_class(class) <==> (lower(class) == "video/source"@ || lower(class) == "stream/output/video"@),
        node_of(o).3 <==> (o.media_class matches Some(c)
            && (lower(c@) == "video/source"@ || lower(c@) == "stream/output/video"@)),
        forall|i: int| 0 <= i < video_nodes(objs).len() ==> ((#[trigger] video_nodes(objs)[i]).3
            <==> (video_nodes(objs)[i].1 matches Some(c) && (lower(c) == "video/source"@ || lower(c) == "stream/output/video"@))),
    decreases objs.len(),
{
    if objs.len() > 0 {
        law_video_source_classes(o, class, objs.drop_last());
        let prev = video_nodes(objs.drop_last());
        assert forall|i: int| 0 <= i < video_nodes(objs).len() implies ((#[trigger] video_nodes(objs)[i]).3
            <==> (video_nodes(objs)[i].1 matches Some(c) && (lower(c) == "video/source"@ || lower(c) == "stream/output/video"@))) by {
            if video_node(objs.last()) && i == prev.len() {
                assert(video_nodes(objs)[i] == node_of(objs.last()));
            } else {
                assert(video_nodes(objs)[i] == prev[i]);
            }
        }
    }
}

} // verus!
