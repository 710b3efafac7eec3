//! What the watcher asks of the docker daemon: the endpoint it talks to, the
//! filters on the event stream and on the container list.

use vstd::prelude::*;
use shiplift::builder::EventFilter as ShipliftEventFilter;
use crate::text::{split_whitespace, string_views, words};

verus! {

/// The kinds of docker objects an event filter can select.
pub enum EventObjectType {
    Container,
}

/// A filter on the docker event stream.
pub enum EventStreamFilter {
    /// Events about objects of the given kind.
    Type(EventObjectType),
    /// Events of the given name (`start`, `stop`, ...).
    Event(String),
    /// Events about objects that carry the given label.
    Label(String),
}

/// An event filter, with its strings taken as character sequences.
pub enum EventStreamFilterView {
    ContainerType,
    Event(Seq<char>),
    Label(Seq<char>),
}

impl View for EventStreamFilter {
    type V = EventStreamFilterView;

    open spec fn view(&self) -> EventStreamFilterView {
        match self {
            EventStreamFilter::Type(EventObjectType::Container) => EventStreamFilterView::ContainerType,
            EventStreamFilter::Event(e) => EventStreamFilterView::Event(e@),
            EventStreamFilter::Label(l) => EventStreamFilterView::Label(l@),
        }
    }
}

/// A filter on the docker container list.
pub enum ContainerListFilter {
    /// Containers in the given state.
    Status(String),
    /// Containers that carry a label of the given name.
    LabelName(String),
}

/// A container filter, with its strings taken as character sequences.
pub enum ContainerListFilterView {
    Status(Seq<char>),
    LabelName(Seq<char>),
}

impl View for ContainerListFilter {
    type V = ContainerListFilterView;

    open spec fn view(&self) -> ContainerListFilterView {
        match self {
            ContainerListFilter::Status(s) => ContainerListFilterView::Status(s@),
            ContainerListFilter::LabelName(l) => ContainerListFilterView::LabelName(l@),
        }
    }
}

/// The views of a list of event filters.
pub open spec fn event_filter_views(v: Seq<EventStreamFilter>) -> Seq<EventStreamFilterView> {
    v.map_values(|f: EventStreamFilter| f@)
}

/// The views of a list of container filters.
pub open spec fn container_filter_views(v: Seq<ContainerListFilter>) -> Seq<ContainerListFilterView> {
    v.map_values(|f: ContainerListFilter| f@)
}

/// The event filters for a whitespace separated list of labels: container
/// events named `start`, `stop` or `die`, about containers with one of the
/// labels.
pub open spec fn spec_event_filters(labels: Seq<char>) -> Seq<EventStreamFilterView> {
    seq![
        EventStreamFilterView::ContainerType,
        EventStreamFilterView::Event("start"@),
        EventStreamFilterView::Event("stop"@),
        EventStreamFilterView::Event("die"@),
    ] + words(labels).map_values(|l: Seq<char>| EventStreamFilterView::Label(l))
}

/// The container list filters for a whitespace separated list of labels:
/// running containers with one of the labels.
pub open spec fn spec_container_filters(labels: Seq<char>) -> Seq<ContainerListFilterView> {
    seq![ContainerListFilterView::Status("running"@)] + words(labels).map_values(
        |l: Seq<char>| ContainerListFilterView::LabelName(l),
    )
}

/// The filters on the event stream that the watcher listens to.
pub fn event_filters(labels: &str) -> (res: Vec<EventStreamFilter>)
    ensures
        event_filter_views(res@) == spec_event_filters(labels@),
{
    let mut res: Vec<EventStreamFilter> = Vec::new();
    res.push(EventStreamFilter::Type(EventObjectType::Container));
    res.push(EventStreamFilter::Event("start".to_owned()));
    res.push(EventStreamFilter::Event("stop".to_owned()));
    res.push(EventStreamFilter::Event("die".to_owned()));
    let names = split_whitespace(labels);
    let ghost head = event_filter_views(res@);
    let ghost ws = words(labels@);
    for i in 0..names.len()
        invariant
            string_views(names@) == ws,
            res@.len() == 4 + i,
            event_filter_views(res@) == head + ws.take(i as int).map_values(
                |l: Seq<char>| EventStreamFilterView::Label(l),
            ),
    {
        let ghost before = res@;
        let name = names[i].clone();
        assert(name@ == ws[i as int]);
        res.push(EventStreamFilter::Label(name));
        assert(event_filter_views(res@) == event_filter_views(before).push(
            EventStreamFilterView::Label(ws[i as int]),
        ));
        assert(ws.take(i + 1).map_values(|l: Seq<char>| EventStreamFilterView::Label(l)) == ws.take(
            i as int,
        ).map_values(|l: Seq<char>| EventStreamFilterView::Label(l)).push(
            EventStreamFilterView::Label(ws[i as int]),
        ));
    }
    assert(ws.take(names@.len() as int) == ws);
    res
}

/// The filters on the container list that the watcher processes.
pub fn container_list_filters(labels: &str) -> (res: Vec<ContainerListFilter>)
    ensures
        container_filter_views(res@) == spec_container_filters(labels@),
{
    let mut res: Vec<ContainerListFilter> = Vec::new();
    res.push(ContainerListFilter::Status("running".to_owned()));
    let names = split_whitespace(labels);
    let ghost head = container_filter_views(res@);
    let ghost ws = words(labels@);
    for i in 0..names.len()
        invariant
            string_views(names@) == ws,
            res@.len() == 1 + i,
            container_filter_views(res@) == head + ws.take(i as int).map_values(
                |l: Seq<char>| ContainerListFilterView::LabelName(l),
            ),
    {
        let ghost before = res@;
        let name = names[i].clone();
        assert(name@ == ws[i as int]);
        res.push(ContainerListFilter::LabelName(name));
        assert(container_filter_views(res@) == container_filter_views(before).push(
            ContainerListFilterView::LabelName(ws[i as int]),
        ));
        assert(ws.take(i + 1).map_values(|l: Seq<char>| ContainerListFilterView::LabelName(l))
            == ws.take(i as int).map_values(|l: Seq<char>| ContainerListFilterView::LabelName(l)).push(
            ContainerListFilterView::LabelName(ws[i as int]),
        ));
    }
    assert(ws.take(names@.len() as int) == ws);
    res
}

/// Names what `url::Url::parse` gives for `s`: the serialization of the
/// URL it reads from `s`, or nothing when it refuses `s`.
pub uninterp spec fn url_parse(s: Seq<char>) -> Option<Seq<char>>;

/// Calls `url::Url::parse` on `s` and, when it succeeds, turns the URL into
/// its serialization (`String::from`). The contract claims that the result
/// is `url_parse(s)`: `url` parses deterministically, so the serialization is
/// a function of `s` alone. Nothing is claimed of which strings it accepts.
#[verifier::external_body]
fn parse_url(s: &str) -> (res: Option<String>)
    ensures
        match res {
            Some(u) => url_parse(s@) == Some(u@),
            None => url_parse(s@) is None,
        },
{
    match url::Url::parse(s) {
        Ok(u) => Some(String::from(u)),
        Err(_) => None,
    }
}

#[verifier::external_type_specification]
#[verifier::external_body]
pub struct ExShipliftEventsOptions(shiplift::EventsOptions);

#[verifier::external_type_specification]
#[verifier::external_body]
pub struct ExShipliftContainerListOptions(shiplift::ContainerListOptions);

/// The kind and the value under which shiplift files an event filter.
pub open spec fn event_filter_entry(f: EventStreamFilterView) -> (Seq<char>, Seq<char>) {
    match f {
        EventStreamFilterView::ContainerType => ("type"@, "container"@),
        EventStreamFilterView::Event(e) => ("event"@, e),
        EventStreamFilterView::Label(l) => ("label"@, l),
    }
}

/// What shiplift's event options hold for a list of event filters: each kind
/// maps to the values of its filters, in the order of the list.
pub open spec fn event_filter_map(fs: Seq<EventStreamFilterView>) -> Map<Seq<char>, Seq<Seq<char>>>
    decreases fs.len(),
{
    if fs.len() == 0 {
        Map::empty()
    } else {
        let m = event_filter_map(fs.drop_last());
        let (k, v) = event_filter_entry(fs.last());
        if m.contains_key(k) {
            m.insert(k, m[k].push(v))
        } else {
            m.insert(k, seq![v])
        }
    }
}

/// The kind and the value under which shiplift files a container filter.
pub open spec fn container_filter_entry(f: ContainerListFilterView) -> (Seq<char>, Seq<char>) {
    match f {
        ContainerListFilterView::Status(s) => ("status"@, s),
        ContainerListFilterView::LabelName(l) => ("label"@, l),
    }
}

/// What shiplift's container list options hold for a list of container
/// filters: each kind maps to the value of the last filter of that kind
/// (shiplift replaces the entry of a kind at each filter of it).
pub open spec fn container_filter_map(fs: Seq<ContainerListFilterView>) -> Map<Seq<char>, Seq<Seq<char>>>
    decreases fs.len(),
{
    if fs.len() == 0 {
        Map::empty()
    } else {
        let (k, v) = container_filter_entry(fs.last());
        container_filter_map(fs.drop_last()).insert(k, seq![v])
    }
}

/// What the event options hold for a whitespace separated label list:
/// container events named `start`, `stop` and `die`, and, when the list has
/// labels, every one of them as a label filter.
pub open spec fn spec_events_options_for(labels: Seq<char>) -> Map<Seq<char>, Seq<Seq<char>>> {
    let base = Map::<Seq<char>, Seq<Seq<char>>>::empty().insert("type"@, seq!["container"@]).insert(
        "event"@,
        seq!["start"@, "stop"@, "die"@],
    );
    if words(labels).len() > 0 {
        base.insert("label"@, words(labels))
    } else {
        base
    }
}

/// What the container list options hold for a whitespace separated label
/// list: running containers and, when the list has labels, the last of them.
pub open spec fn spec_container_options_for(labels: Seq<char>) -> Map<Seq<char>, Seq<Seq<char>>> {
    let base = Map::<Seq<char>, Seq<Seq<char>>>::empty().insert("status"@, seq!["running"@]);
    if words(labels).len() > 0 {
        base.insert("label"@, seq![words(labels).last()])
    } else {
        base
    }
}

proof fn lemma_event_map_with_labels(h: Seq<EventStreamFilterView>, ws: Seq<Seq<char>>)
    requires
        !event_filter_map(h).contains_key("label"@),
    ensures
        event_filter_map(h + ws.map_values(|l: Seq<char>| EventStreamFilterView::Label(l))) == (if ws.len() > 0 {
            event_filter_map(h).insert("label"@, ws)
        } else {
            event_filter_map(h)
        }),
    decreases ws.len(),
{
    let f = |l: Seq<char>| EventStreamFilterView::Label(l);
    let s = h + ws.map_values(f);
    if ws.len() == 0 {
        assert(s =~= h);
    } else {
        let p = ws.drop_last();
        lemma_event_map_with_labels(h, p);
        assert(s.drop_last() =~= h + p.map_values(f));
        assert(s.last() == EventStreamFilterView::Label(ws.last()));
        if p.len() > 0 {
            assert(p.push(ws.last()) =~= ws);
            assert(event_filter_map(h).insert("label"@, p).insert("label"@, ws) =~= event_filter_map(
                h,
            ).insert("label"@, ws));
        } else {
            assert(seq![ws.last()] =~= ws);
        }
    }
}

proof fn lemma_container_map_with_labels(h: Seq<ContainerListFilterView>, ws: Seq<Seq<char>>)
    ensures
        container_filter_map(h + ws.map_values(|l: Seq<char>| ContainerListFilterView::LabelName(l)))
            == (if ws.len() > 0 {
            container_filter_map(h).insert("label"@, seq![ws.last()])
        } else {
            container_filter_map(h)
        }),
    decreases ws.len(),
{
    let f = |l: Seq<char>| ContainerListFilterView::LabelName(l);
    let s = h + ws.map_values(f);
    if ws.len() == 0 {
        assert(s =~= h);
    } else {
        let p = ws.drop_last();
        lemma_container_map_with_labels(h, p);
        assert(s.drop_last() =~= h + p.map_values(f));
        assert(s.last() == ContainerListFilterView::LabelName(ws.last()));
        if p.len() > 0 {
            assert(container_filter_map(h).insert("label"@, seq![p.last()]).insert(
                "label"@,
                seq![ws.last()],
            ) =~= container_filter_map(h).insert("label"@, seq![ws.last()]));
        }
    }
}

/// The options that the watcher hands to shiplift for a label list hold what
/// the list says: on the event stream, container events named `start`,
/// `stop` and `die` about containers with any of the labels; on the
/// container list, running containers with the last of the labels, since
/// shiplift keeps one label filter for a container list.
pub proof fn law_options_for_labels(labels: Seq<char>)
    ensures
        event_filter_map(spec_event_filters(labels)) == spec_events_options_for(labels),
        container_filter_map(spec_container_filters(labels)) == spec_container_options_for(labels),
{
    reveal_strlit("type");
    reveal_strlit("event");
    reveal_strlit("label");
    reveal_strlit("status");
    assert("type"@.len() == 4);
    assert("event"@.len() == 5);
    assert("label"@.len() == 5);
    assert("status"@.len() == 6);
    assert("event"@[0] != "label"@[0]);
    assert("event"@ != "type"@);
    assert("label"@ != "type"@);
    assert("label"@ != "event"@);
    assert("label"@ != "status"@);
    let h = seq![
        EventStreamFilterView::ContainerType,
        EventStreamFilterView::Event("start"@),
        EventStreamFilterView::Event("stop"@),
        EventStreamFilterView::Event("die"@),
    ];
    let h3 = seq![
        EventStreamFilterView::ContainerType,
        EventStreamFilterView::Event("start"@),
        EventStreamFilterView::Event("stop"@),
    ];
    let h2 = seq![EventStreamFilterView::ContainerType, EventStreamFilterView::Event("start"@)];
    let h1 = seq![EventStreamFilterView::ContainerType];
    assert(h.drop_last() =~= h3);
    assert(h3.drop_last() =~= h2);
    assert(h2.drop_last() =~= h1);
    assert(h1.drop_last() =~= Seq::<EventStreamFilterView>::empty());
    let m1 = Map::<Seq<char>, Seq<Seq<char>>>::empty().insert("type"@, seq!["container"@]);
    assert(event_filter_map(Seq::<EventStreamFilterView>::empty()) == Map::<
        Seq<char>,
        Seq<Seq<char>>,
    >::empty());
    assert(h1.last() == EventStreamFilterView::ContainerType);
    assert(event_filter_map(h1) =~= m1);
    assert(h2.last() == EventStreamFilterView::Event("start"@));
    assert(event_filter_map(h2) =~= m1.insert("event"@, seq!["start"@]));
    assert(seq!["start"@].push("stop"@) =~= seq!["start"@, "stop"@]);
    assert(event_filter_map(h3) =~= m1.insert("event"@, seq!["start"@, "stop"@]));
    assert(seq!["start"@, "stop"@].push("die"@) =~= seq!["start"@, "stop"@, "die"@]);
    assert(event_filter_map(h) =~= m1.insert("event"@, seq!["start"@, "stop"@, "die"@]));
    lemma_event_map_with_labels(h, words(labels));
    let c = seq![ContainerListFilterView::Status("running"@)];
    assert(c.drop_last() =~= Seq::<ContainerListFilterView>::empty());
    assert(container_filter_map(Seq::<ContainerListFilterView>::empty()) == Map::<
        Seq<char>,
        Seq<Seq<char>>,
    >::empty());
    assert(c.last() == ContainerListFilterView::Status("running"@));
    assert(container_filter_map(c) =~= Map::<Seq<char>, Seq<Seq<char>>>::empty().insert(
        "status"@,
        seq!["running"@],
    ));
    lemma_container_map_with_labels(c, words(labels));
    if words(labels).len() > 0 {
        assert(container_filter_map(c).insert("label"@, seq![words(labels).last()])
            =~= spec_container_options_for(labels));
    }
}

/// Names what a `shiplift::EventsOptions` holds: its `filters` parameter,
/// read as a map from filter kind to the list of values.
pub uninterp spec fn events_options_filters(opts: shiplift::EventsOptions) -> Map<Seq<char>, Seq<Seq<char>>>;

/// Names what a `shiplift::ContainerListOptions` holds: its `filters`
/// parameter, read as a map from filter kind to the list of values.
pub uninterp spec fn container_list_options_filters(opts: shiplift::ContainerListOptions) -> Map<Seq<char>, Seq<Seq<char>>>;

/// Turns each filter into the shiplift `EventFilter` variant of the same
/// name, then calls `EventsOptions::builder()`, `filter` and `build`.
/// shiplift's `filter` appends each value to the list of its kind
/// (`type` with `container`, `event`, `label`), so the options hold
/// `event_filter_map` of the filters. Only the key order of the JSON that
/// shiplift writes varies between runs, and the name leaves it out.
#[verifier::external_body]
fn build_events_options(filters: &Vec<EventStreamFilter>) -> (res: shiplift::EventsOptions)
    ensures
        events_options_filters(res) == event_filter_map(event_filter_views(filters@)),
{
    let converted = filters.iter().map(|f| match f {
        EventStreamFilter::Type(EventObjectType::Container) => ShipliftEventFilter::Type(
            shiplift::builder::EventFilterType::Container,
        ),
        EventStreamFilter::Event(n) => ShipliftEventFilter::Event(n.clone()),
        EventStreamFilter::Label(l) => ShipliftEventFilter::Label(l.clone()),
    }).collect();
    shiplift::EventsOptions::builder().filter(converted).build()
}

/// Turns each filter into the `shiplift::ContainerFilter` variant of the same
/// name, then calls `ContainerListOptions::builder()`, `filter` and `build`.
/// shiplift's `filter` sets, for each filter in turn, the entry of its kind
/// (`status`, `label`) to a list of its one value, so the options hold
/// `container_filter_map` of the filters.
#[verifier::external_body]
fn build_container_list_options(filters: &Vec<ContainerListFilter>) -> (res:
    shiplift::ContainerListOptions)
    ensures
        container_list_options_filters(res) == container_filter_map(
            container_filter_views(filters@),
        ),
{
    let converted = filters.iter().map(|f| match f {
        ContainerListFilter::Status(s) => shiplift::ContainerFilter::Status(s.clone()),
        ContainerListFilter::LabelName(n) => shiplift::ContainerFilter::LabelName(n.clone()),
    }).collect();
    shiplift::ContainerListOptions::builder().filter(converted).build()
}

/// The endpoint that the watcher talks to: the endpoint option when it is
/// given (non-empty), else the `DOCKER_HOST` variable when it is set, else
/// the local socket `unix:///var/run/docker.sock`.
pub open spec fn spec_endpoint(flag_endpoint: Seq<char>, docker_host: Option<Seq<char>>) -> Seq<char> {
    if flag_endpoint.len() > 0 {
        flag_endpoint
    } else {
        match docker_host {
            Some(h) => h,
            None => "unix:///var/run/docker.sock"@,
        }
    }
}

/// A given endpoint option is the endpoint whatever `DOCKER_HOST` holds,
/// set or not; without the option, `DOCKER_HOST` is used when set, else the
/// local socket.
pub proof fn law_endpoint_option_wins(flag: Seq<char>, docker_host: Option<Seq<char>>, h: Seq<char>)
    ensures
        flag.len() > 0 ==> spec_endpoint(flag, docker_host) == flag,
        spec_endpoint(Seq::empty(), Some(h)) == h,
        spec_endpoint(Seq::empty(), None) == "unix:///var/run/docker.sock"@,
{
}

/// Chooses the endpoint from the endpoint option and `DOCKER_HOST`.
pub fn choose_endpoint(flag_endpoint: &str, docker_host: Option<&str>) -> (res: String)
    ensures
        res@ == spec_endpoint(
            flag_endpoint@,
            match docker_host {
                Some(h) => Some(h@),
                None => None,
            },
        ),
{
    if !flag_endpoint.is_empty() {
        flag_endpoint.to_owned()
    } else {
        match docker_host {
            Some(h) => h.to_owned(),
            None => "unix:///var/run/docker.sock".to_owned(),
        }
    }
}

/// The connection settings of the watcher: the docker endpoint, and the
/// filters it asks the daemon for.
pub struct DockerEvents {
    /// The endpoint URL, as `url` serializes it.
    pub endpoint: String,
    /// The filters on the event stream.
    pub event_filters: Vec<EventStreamFilter>,
    /// The filters on the container list.
    pub container_filters: Vec<ContainerListFilter>,
}

impl DockerEvents {
    /// The settings for the docker daemon at `endpoint_url`, watching the
    /// containers with one of the whitespace separated `labels`.
    pub fn new(endpoint_url: &str, labels: &str) -> (res: Result<DockerEvents, &'static str>)
        requires
            url_parse(endpoint_url@) is Some,
        ensures
            res matches Ok(d) && {
                &&& d.endpoint@ == url_parse(endpoint_url@)->0
                &&& event_filter_views(d.event_filters@) == spec_event_filters(labels@)
                &&& container_filter_views(d.container_filters@) == spec_container_filters(
                    labels@,
                )
            },
    {
        let endpoint = match parse_url(endpoint_url) {
            Some(u) => u,
            None => {
                assert(false);
                String::new()
            },
        };
        Ok(
            DockerEvents {
                endpoint,
                event_filters: event_filters(labels),
                container_filters: container_list_filters(labels),
            },
        )
    }

    /// Like `new`, but gives nothing when `url` does not read `endpoint_url`
    /// as a URL.
    pub fn from_endpoint(endpoint_url: &str, labels: &str) -> (res: Option<DockerEvents>)
        ensures
            res is Some <==> url_parse(endpoint_url@) is Some,
            res matches Some(d) ==> {
                &&& d.endpoint@ == url_parse(endpoint_url@)->0
                &&& event_filter_views(d.event_filters@) == spec_event_filters(labels@)
                &&& container_filter_views(d.container_filters@) == spec_container_filters(
                    labels@,
                )
            },
    {
        match parse_url(endpoint_url) {
            Some(_) => match DockerEvents::new(endpoint_url, labels) {
                Ok(d) => Some(d),
                Err(_) => None,
            },
            None => None,
        }
    }

    /// The shiplift options for the event stream, with `event_filters`.
    pub fn events_options(&self) -> (res: shiplift::EventsOptions)
        ensures
            events_options_filters(res) == event_filter_map(event_filter_views(self.event_filters@)),
    {
        build_events_options(&self.event_filters)
    }

    /// The shiplift options for the container list, with `container_filters`.
    pub fn container_list_options(&self) -> (res: shiplift::ContainerListOptions)
        ensures
            container_list_options_filters(res) == container_filter_map(
                container_filter_views(self.container_filters@),
            ),
    {
        build_container_list_options(&self.container_filters)
    }
}

/// A change of a container, as the event stream reports it.
#[derive(Debug)]
pub struct DockerContainerInfo {
    pub id: String,
    pub status: String,
    pub from: String,
}

impl DockerContainerInfo {
    /// The change that an event with the given fields reports; each field
    /// must be present.
    pub fn from_event(id: Option<String>, status: Option<String>, from: Option<String>) -> (res:
        DockerContainerInfo)
        requires
            id is Some,
            status is Some,
            from is Some,
        ensures
            res.id@ == id->0@,
            res.status@ == status->0@,
            res.from@ == from->0@,
    {
        DockerContainerInfo { id: id.unwrap(), status: status.unwrap(), from: from.unwrap() }
    }
}

} // verus!
