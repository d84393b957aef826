//! Containers as the daemon reports them, and as the monitor lists them.

use vstd::hash_map::StringHashMap;
use vstd::prelude::*;

use crate::text::{decimal, join, joined, trim_start, trimmed_start, write_decimal};

verus! {

/// The transport of a published port.
#[derive(Clone, Copy, Debug, PartialEq, Eq, Structural)]
pub enum PortType {
    Empty,
    Tcp,
    Udp,
    Sctp,
}

/// A port of a container.
#[derive(Clone, Copy, Debug, PartialEq, Eq)]
pub struct Port {
    pub private_port: u16,
    pub public_port: Option<u16>,
    pub typ: Option<PortType>,
}

/// What the daemon tells of a container when it lists them.
#[derive(Clone, Debug)]
pub struct ContainerSummary {
    pub id: Option<String>,
    pub names: Option<Vec<String>>,
    pub image: Option<String>,
    pub ports: Option<Vec<Port>>,
    pub state: Option<String>,
    pub status: Option<String>,
}

/// A percentage, carried as the bit pattern of a double precision number.
#[derive(Clone, Copy, Debug, PartialEq, Eq, Structural)]
pub struct Percent {
    pub bits: u64,
}

/// No usage at all: zero has the zero bit pattern.
pub open spec fn zero_percent() -> Percent {
    Percent { bits: 0 }
}

impl Percent {
    /// Zero percent.
    pub fn zero() -> (r: Percent)
        ensures
            r == zero_percent(),
    {
        Percent { bits: 0 }
    }
}

/// The resource usage of a container.
#[derive(Debug)]
pub struct ContainerStats {
    pub cpu_percent: Percent,
    pub memory_usage: String,
    pub memory_percent: Percent,
}

/// The value of a [`ContainerStats`].
pub struct StatsView {
    pub cpu_percent: Percent,
    pub memory_usage: Seq<char>,
    pub memory_percent: Percent,
}

impl View for ContainerStats {
    type V = StatsView;

    open spec fn view(&self) -> StatsView {
        StatsView {
            cpu_percent: self.cpu_percent,
            memory_usage: self.memory_usage@,
            memory_percent: self.memory_percent,
        }
    }
}

impl Clone for ContainerStats {
    fn clone(&self) -> (r: Self)
        ensures
            r@ == self@,
    {
        ContainerStats {
            cpu_percent: self.cpu_percent,
            memory_usage: self.memory_usage.clone(),
            memory_percent: self.memory_percent,
        }
    }
}

/// A line of the monitor.
#[derive(Clone, Debug)]
pub struct ContainerInfo {
    pub id: String,
    pub name: String,
    pub status: String,
    pub cpu_percent: Percent,
    pub memory_usage: String,
    pub memory_percent: Percent,
    pub image: String,
    pub ports: String,
    pub state: String,
}

/// The value of a [`ContainerInfo`].
pub struct ContainerInfoView {
    pub id: Seq<char>,
    pub name: Seq<char>,
    pub status: Seq<char>,
    pub cpu_percent: Percent,
    pub memory_usage: Seq<char>,
    pub memory_percent: Percent,
    pub image: Seq<char>,
    pub ports: Seq<char>,
    pub state: Seq<char>,
}

impl View for ContainerInfo {
    type V = ContainerInfoView;

    open spec fn view(&self) -> ContainerInfoView {
        ContainerInfoView {
            id: self.id@,
            name: self.name@,
            status: self.status@,
            cpu_percent: self.cpu_percent,
            memory_usage: self.memory_usage@,
            memory_percent: self.memory_percent,
            image: self.image@,
            ports: self.ports@,
            state: self.state@,
        }
    }
}

/// The values of a list of lines.
pub open spec fn info_views(list: Seq<ContainerInfo>) -> Seq<ContainerInfoView> {
    list.map_values(|i: ContainerInfo| i@)
}

/// The usage of containers by container id.
pub struct StatsMap {
    entries: StringHashMap<ContainerStats>,
}

impl View for StatsMap {
    type V = Map<Seq<char>, StatsView>;

    closed spec fn view(&self) -> Map<Seq<char>, StatsView> {
        self.entries@.map_values(|s: ContainerStats| s@)
    }
}

impl StatsMap {
    /// A map without entries.
    pub fn new() -> (r: StatsMap)
        ensures
            r@ == Map::<Seq<char>, StatsView>::empty(),
    {
        let r = StatsMap { entries: StringHashMap::new() };
        assert(r@ =~= Map::<Seq<char>, StatsView>::empty());
        r
    }

    /// Sets the usage of a container.
    pub fn insert(&mut self, id: String, stats: ContainerStats)
        ensures
            final(self)@ == old(self)@.insert(id@, stats@),
    {
        let ghost before = self@;
        let ghost key = id@;
        let ghost value = stats@;
        self.entries.insert(id, stats);
        assert(self@ =~= before.insert(key, value));
    }

    /// The usage of a container, where the map has it.
    pub fn get(&self, id: &str) -> (r: Option<&ContainerStats>)
        ensures
            match r {
                Some(stats) => self@.contains_key(id@) && stats@ == self@[id@],
                None => !self@.contains_key(id@),
            },
    {
        self.entries.get(id)
    }
}

/// What stands in for missing usage.
pub open spec fn no_stats() -> StatsView {
    StatsView {
        cpu_percent: zero_percent(),
        memory_usage: "N/A"@,
        memory_percent: zero_percent(),
    }
}

/// The text, or the default where there is none.
pub open spec fn text_or(text: Option<String>, default: Seq<char>) -> Seq<char> {
    match text {
        Some(t) => t@,
        None => default,
    }
}

/// The state of a container.
pub open spec fn container_state(container: ContainerSummary) -> Seq<char> {
    text_or(container.state, "unknown"@)
}

/// The first name of a container without leading slashes.
pub open spec fn container_name(container: ContainerSummary) -> Seq<char> {
    match container.names {
        Some(names) => if names@.len() > 0 {
            trimmed_start(names@[0]@, '/')
        } else {
            "Unknown"@
        },
        None => "Unknown"@,
    }
}

/// How a transport is written.
pub open spec fn port_type_text(typ: PortType) -> Seq<char> {
    match typ {
        PortType::Empty => ""@,
        PortType::Tcp => "tcp"@,
        PortType::Udp => "udp"@,
        PortType::Sctp => "sctp"@,
    }
}

/// How a port is written: `public:private->private/transport`, where the
/// public part is left empty for an unpublished port and the transport is TCP
/// unless the port says otherwise.
pub open spec fn port_text(port: Port) -> Seq<char> {
    let public = match port.public_port {
        Some(p) => decimal(p as nat),
        None => Seq::empty(),
    };
    let private = decimal(port.private_port as nat);
    let transport = match port.typ {
        Some(t) => port_type_text(t),
        None => "tcp"@,
    };
    public + ":"@ + private + "->"@ + private + "/"@ + transport
}

/// The ports of a container, separated by commas.
pub open spec fn ports_text(container: ContainerSummary) -> Seq<char> {
    match container.ports {
        Some(ports) => joined(ports@.map_values(|p: Port| port_text(p)), ", "@),
        None => Seq::empty(),
    }
}

/// The line for a container that has an id.
pub open spec fn info_of(
    container: ContainerSummary,
    stats: Map<Seq<char>, StatsView>,
) -> ContainerInfoView {
    let id = container.id->0@;
    let usage = if stats.contains_key(id) {
        stats[id]
    } else {
        no_stats()
    };
    ContainerInfoView {
        id,
        name: container_name(container),
        status: text_or(container.status, "Unknown"@),
        cpu_percent: usage.cpu_percent,
        memory_usage: usage.memory_usage,
        memory_percent: usage.memory_percent,
        image: text_or(container.image, "Unknown"@),
        ports: ports_text(container),
        state: container_state(container),
    }
}

/// The lines for the containers that have an id, in their order.
pub open spec fn info_list(
    containers: Seq<ContainerSummary>,
    stats: Map<Seq<char>, StatsView>,
) -> Seq<ContainerInfoView> {
    containers.filter(|c: ContainerSummary| c.id is Some).map_values(
        |c: ContainerSummary| info_of(c, stats),
    )
}

/// Filtering a sequence with one more element.
pub proof fn filter_push<A>(s: Seq<A>, keep: spec_fn(A) -> bool, a: A)
    ensures
        s.push(a).filter(keep) == if keep(a) {
            s.filter(keep).push(a)
        } else {
            s.filter(keep)
        },
{
    reveal(Seq::filter);
    assert(s.push(a).drop_last() =~= s);
}

proof fn info_list_push(
    containers: Seq<ContainerSummary>,
    stats: Map<Seq<char>, StatsView>,
    c: ContainerSummary,
)
    ensures
        info_list(containers.push(c), stats) == if c.id is Some {
            info_list(containers, stats).push(info_of(c, stats))
        } else {
            info_list(containers, stats)
        },
{
    filter_push(containers, |c: ContainerSummary| c.id is Some, c);
    if c.id is Some {
        assert(info_list(containers.push(c), stats) =~= info_list(containers, stats).push(
            info_of(c, stats),
        ));
    }
}

/// `PortTypeEnum::to_string` of bollard writes the transport in lower case,
/// and the empty transport as the empty string.
#[verifier::external_body]
fn write_port_type(typ: PortType) -> (r: String)
    ensures
        r@ == port_type_text(typ),
{
    let typ = match typ {
        PortType::Empty => bollard::models::PortTypeEnum::EMPTY,
        PortType::Tcp => bollard::models::PortTypeEnum::TCP,
        PortType::Udp => bollard::models::PortTypeEnum::UDP,
        PortType::Sctp => bollard::models::PortTypeEnum::SCTP,
    };
    typ.to_string()
}

fn text_or_default(text: &Option<String>, default: &str) -> (r: String)
    ensures
        r@ == text_or(*text, default@),
{
    match text {
        Some(t) => t.clone(),
        None => default.to_owned(),
    }
}

/// The state of a container, `unknown` where the daemon gives none.
pub fn get_container_state(container: &ContainerSummary) -> (r: String)
    ensures
        r@ == container_state(*container),
{
    text_or_default(&container.state, "unknown")
}

/// The first name of a container without leading slashes, `Unknown` where it
/// has none.
pub fn extract_container_name(container: &ContainerSummary) -> (r: String)
    ensures
        r@ == container_name(*container),
{
    match &container.names {
        Some(names) => if names.len() > 0 {
            trim_start(names[0].as_str(), '/')
        } else {
            "Unknown".to_owned()
        },
        None => "Unknown".to_owned(),
    }
}

fn format_port(port: &Port) -> (r: String)
    ensures
        r@ == port_text(*port),
{
    let mut r = match port.public_port {
        Some(p) => write_decimal(p as u128),
        None => String::new(),
    };
    let private = write_decimal(port.private_port as u128);
    r.append(":");
    r.append(private.as_str());
    r.append("->");
    r.append(private.as_str());
    r.append("/");
    match port.typ {
        Some(t) => {
            let transport = write_port_type(t);
            r.append(transport.as_str());
        },
        None => {
            r.append("tcp");
        },
    }
    r
}

/// The ports of a container, separated by commas.
pub fn format_ports(container: &ContainerSummary) -> (r: String)
    ensures
        r@ == ports_text(*container),
{
    match &container.ports {
        Some(ports) => {
            let mut parts: Vec<String> = Vec::new();
            let mut i: usize = 0;
            while i < ports.len()
                invariant
                    i <= ports.len(),
                    parts.len() == i,
                    forall|j: int| 0 <= j < i ==> (#[trigger] parts[j])@ == port_text(ports[j]),
                decreases ports.len() - i,
            {
                parts.push(format_port(&ports[i]));
                i = i + 1;
            }
            assert(parts@.map_values(|p: String| p@) =~= ports@.map_values(
                |p: Port| port_text(p),
            ));
            join(&parts, ", ")
        },
        None => String::new(),
    }
}

fn build_container_info(id: &String, container: &ContainerSummary, stats_map: &StatsMap) -> (r:
    ContainerInfo)
    requires
        container.id == Some(*id),
    ensures
        r@ == info_of(*container, stats_map@),
{
    let (cpu_percent, memory_usage, memory_percent) = match stats_map.get(id.as_str()) {
        Some(stats) => (stats.cpu_percent, stats.memory_usage.clone(), stats.memory_percent),
        None => (Percent::zero(), "N/A".to_owned(), Percent::zero()),
    };
    ContainerInfo {
        id: id.clone(),
        name: extract_container_name(container),
        status: text_or_default(&container.status, "Unknown"),
        cpu_percent,
        memory_usage,
        memory_percent,
        image: text_or_default(&container.image, "Unknown"),
        ports: format_ports(container),
        state: get_container_state(container),
    }
}

/// The lines for the containers that have an id, with the usage that is known
/// of them. It always succeeds.
pub fn build_container_info_list(
    containers: Vec<ContainerSummary>,
    stats_map: StatsMap,
) -> (r: Result<Vec<ContainerInfo>, String>)
    ensures
        r is Ok,
        info_views(r->Ok_0@) == info_list(containers@, stats_map@),
{
    let mut list: Vec<ContainerInfo> = Vec::new();
    let mut i: usize = 0;
    proof {
        reveal(Seq::filter);
        assert(containers@.take(0) =~= Seq::empty());
        assert(info_list(containers@.take(0), stats_map@) =~= Seq::empty());
        assert(info_views(list@) =~= Seq::empty());
    }
    while i < containers.len()
        invariant
            i <= containers.len(),
            info_views(list@) == info_list(containers@.take(i as int), stats_map@),
        decreases containers.len() - i,
    {
        proof {
            assert(containers@.take(i as int + 1) =~= containers@.take(i as int).push(
                containers@[i as int],
            ));
            info_list_push(containers@.take(i as int), stats_map@, containers@[i as int]);
        }
        let container = &containers[i];
        if let Some(id) = &container.id {
            let ghost before = list@;
            let info = build_container_info(id, container, &stats_map);
            list.push(info);
            assert(info_views(list@) =~= info_views(before).push(info@));
        }
        i = i + 1;
    }
    assert(containers@.take(containers.len() as int) =~= containers@);
    Ok(list)
}

/// The views of usage, of a line and of a list of lines hold every field as it
/// is, and every line in its place.
pub proof fn views_hold_what_they_show(
    stats: ContainerStats,
    info: ContainerInfo,
    list: Seq<ContainerInfo>,
)
    ensures
        stats@.cpu_percent == stats.cpu_percent,
        stats@.memory_usage == stats.memory_usage@,
        stats@.memory_percent == stats.memory_percent,
        info@.id == info.id@,
        info@.name == info.name@,
        info@.status == info.status@,
        info@.cpu_percent == info.cpu_percent,
        info@.memory_usage == info.memory_usage@,
        info@.memory_percent == info.memory_percent,
        info@.image == info.image@,
        info@.ports == info.ports@,
        info@.state == info.state@,
        info_views(list).len() == list.len(),
        forall|i: int| 0 <= i < list.len() ==> info_views(list)[i] == (#[trigger] list[i])@,
{
}

/// The line of a container has the container's own id, status, image and state,
/// with a word for each that is missing, and the usage that is known of its id:
/// each figure in its own column, or nothing at all.
pub proof fn a_line_tells_of_its_container(
    container: ContainerSummary,
    stats: Map<Seq<char>, StatsView>,
)
    requires
        container.id is Some,
    ensures
        ({
            let line = info_of(container, stats);
            let id = container.id->0@;
            &&& line.id == id
            &&& container.status matches Some(status) ==> line.status == status@
            &&& container.status is None ==> line.status == "Unknown"@
            &&& container.image matches Some(image) ==> line.image == image@
            &&& container.image is None ==> line.image == "Unknown"@
            &&& container.state matches Some(state) ==> line.state == state@
            &&& container.state is None ==> line.state == "unknown"@
            &&& stats.contains_key(id) ==> {
                &&& line.cpu_percent == stats[id].cpu_percent
                &&& line.memory_usage == stats[id].memory_usage
                &&& line.memory_percent == stats[id].memory_percent
            }
            &&& !stats.contains_key(id) ==> {
                &&& line.cpu_percent.bits == 0
                &&& line.memory_usage == "N/A"@
                &&& line.memory_percent.bits == 0
            }
        }),
{
}

/// The state of a container is the one that the daemon gives, in its line as
/// elsewhere.
pub proof fn the_state_is_the_reported_one(
    container: ContainerSummary,
    stats: Map<Seq<char>, StatsView>,
)
    ensures
        container.state matches Some(state) ==> container_state(container) == state@,
        container.state is None ==> container_state(container) == "unknown"@,
        info_of(container, stats).state == container_state(container),
{
}

/// A container is named by the first of its names: slashes before it go, and
/// nothing else does. Without a name it is unknown.
pub proof fn a_container_has_its_first_name(
    container: ContainerSummary,
    stats: Map<Seq<char>, StatsView>,
)
    ensures
        info_of(container, stats).name == container_name(container),
        container.names is None ==> container_name(container) == "Unknown"@,
        container.names matches Some(names) ==> {
            &&& names@.len() == 0 ==> container_name(container) == "Unknown"@
            &&& names@.len() > 0 ==> exists|slashes: int|
                0 <= slashes <= names@[0]@.len() && container_name(container)
                    == #[trigger] names@[0]@.skip(slashes) && (forall|i: int|
                    0 <= i < slashes ==> names@[0]@[i] == '/') && (slashes < names@[0]@.len()
                    ==> names@[0]@[slashes] != '/')
        },
{
    if container.names is Some && container.names->0@.len() > 0 {
        let first = container.names->0@[0]@;
        let slashes = crate::text::trimmed_start_is_longest(first, '/');
        assert(container_name(container) == first.skip(slashes as int));
    }
}

/// The line of a container shows its ports: nothing where it has none; of a
/// single port the public number, where there is one, a colon, the private
/// number, an arrow, the private number again, a slash and the transport, which
/// is TCP where the daemon gives none.
pub proof fn a_line_shows_a_port(
    container: ContainerSummary,
    port: Port,
    stats: Map<Seq<char>, StatsView>,
)
    ensures
        container.ports is None ==> info_of(container, stats).ports == Seq::<char>::empty(),
        container.ports matches Some(ports) ==> ports@.len() == 0 ==> info_of(
            container,
            stats,
        ).ports == Seq::<char>::empty(),
        container.ports matches Some(ports) ==> ports@ == seq![port] ==> {
            let text = info_of(container, stats).ports;
            let number = decimal(port.private_port as nat);
            let rest = ":"@ + number + "->"@ + number + "/"@;
            let shown = match port.public_port {
                Some(public) => decimal(public as nat) + rest,
                None => rest,
            };
            &&& port.typ is None ==> text == shown + "tcp"@
            &&& port.typ == Some(PortType::Tcp) ==> text == shown + "tcp"@
            &&& port.typ == Some(PortType::Udp) ==> text == shown + "udp"@
            &&& port.typ == Some(PortType::Sctp) ==> text == shown + "sctp"@
            &&& port.typ == Some(PortType::Empty) ==> text == shown
            &&& text.len() > 0
        },
        info_of(container, stats).ports == ports_text(container),
{
    reveal_strlit("");
    reveal_strlit(":");
    if container.ports is Some {
        let ports = container.ports->0@;
        let parts = ports.map_values(|p: Port| port_text(p));
        if ports == seq![port] {
            assert(parts =~= seq![port_text(port)]);
            let number = decimal(port.private_port as nat);
            let rest = ":"@ + number + "->"@ + number + "/"@;
            let shown = match port.public_port {
                Some(public) => decimal(public as nat) + rest,
                None => rest,
            };
            let transport = match port.typ {
                Some(t) => port_type_text(t),
                None => "tcp"@,
            };
            assert(port_text(port) =~= shown + transport);
            assert(shown + ""@ =~= shown);
        }
    }
}

/// The ports of a container are shown in their order with a comma and a space
/// between them: those of a container that has all ports of two others are
/// those of the first, the separator, and those of the second.
pub proof fn lines_show_all_ports_in_order(
    container: ContainerSummary,
    first: ContainerSummary,
    second: ContainerSummary,
    stats: Map<Seq<char>, StatsView>,
)
    requires
        container.ports is Some,
        first.ports is Some,
        second.ports is Some,
        first.ports->0@.len() > 0,
        second.ports->0@.len() > 0,
        container.ports->0@ == first.ports->0@ + second.ports->0@,
    ensures
        info_of(container, stats).ports == info_of(first, stats).ports + ", "@ + info_of(
            second,
            stats,
        ).ports,
{
    let written = |p: Port| port_text(p);
    let all = container.ports->0@.map_values(written);
    let one = first.ports->0@.map_values(written);
    let two = second.ports->0@.map_values(written);
    assert(all =~= one + two);
    crate::text::joining_puts_the_separator_between(one, two, Seq::empty(), ", "@);
}

/// A list of containers gives the lines of its parts one after the other; a
/// single container gives its line where it has an id, and none where it has
/// not.
pub proof fn lines_follow_the_containers(
    first: Seq<ContainerSummary>,
    second: Seq<ContainerSummary>,
    container: ContainerSummary,
    stats: Map<Seq<char>, StatsView>,
)
    ensures
        info_list(first + second, stats) == info_list(first, stats) + info_list(second, stats),
        container.id is Some ==> info_list(seq![container], stats) == seq![
            info_of(container, stats),
        ],
        container.id is None ==> info_list(seq![container], stats) == Seq::<
            ContainerInfoView,
        >::empty(),
{
    let keep = |c: ContainerSummary| c.id is Some;
    Seq::filter_distributes_over_add(first, second, keep);
    assert(info_list(first + second, stats) =~= info_list(first, stats) + info_list(second, stats));
    reveal(Seq::filter);
    let none = Seq::<ContainerSummary>::empty();
    assert(none.push(container) =~= seq![container]);
    info_list_push(none, stats, container);
    assert(info_list(none, stats) =~= Seq::<ContainerInfoView>::empty());
    assert(info_list(none, stats).push(info_of(container, stats)) =~= seq![
        info_of(container, stats),
    ]);
}

} // verus!
