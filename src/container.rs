use vstd::prelude::*;

use crate::text::{decimal, decode_lossy, push_char, push_decimal, split_lines, trim, trimmed_lines, utf8_lossy};

verus! {

/// The auxiliary service's container: its name, image, the port it
/// publishes on the host, and the named volume mounted for its data.
pub struct ContainerSpec {
    pub name: String,
    pub image: String,
    pub port: u16,
    pub volume: String,
    pub mount: String,
}

impl ContainerSpec {
    /// The vector database's container.
    pub fn qdrant() -> (r: ContainerSpec)
        ensures
            r.name@ == "canvaintel-qdrant"@,
            r.image@ == "qdrant/qdrant:latest"@,
            r.port == 6333,
            r.volume@ == "canvaintel_qdrant_data"@,
            r.mount@ == "/qdrant/storage"@,
    {
        ContainerSpec {
            name: String::from_str("canvaintel-qdrant"),
            image: String::from_str("qdrant/qdrant:latest"),
            port: 6333,
            volume: String::from_str("canvaintel_qdrant_data"),
            mount: String::from_str("/qdrant/storage"),
        }
    }
}

/// `port:port`, publishing the port under its own number.
pub open spec fn port_mapping(port: nat) -> Seq<char> {
    decimal(port) + seq![':'] + decimal(port)
}

/// The engine's arguments that start the stopped container by name.
pub open spec fn start_args(c: ContainerSpec) -> Seq<Seq<char>> {
    seq!["start"@, c.name@]
}

/// The engine's arguments that create and start the container, detached,
/// with its port published, its volume mounted, and restarted unless
/// stopped by hand.
pub open spec fn run_args(c: ContainerSpec) -> Seq<Seq<char>> {
    seq![
        "run"@,
        "-d"@,
        "--name"@,
        c.name@,
        "-p"@,
        port_mapping(c.port as nat),
        "-v"@,
        c.volume@ + seq![':'] + c.mount@,
        "--restart"@,
        "unless-stopped"@,
        c.image@,
    ]
}

/// The engine's arguments that list the names of running containers that
/// publish the port.
pub open spec fn list_args(c: ContainerSpec) -> Seq<Seq<char>> {
    seq!["ps"@, "--filter"@, "publish="@ + decimal(c.port as nat), "--format"@, "{{.Names}}"@]
}

/// The engine's arguments that stop the container `name`.
pub open spec fn stop_args(name: Seq<char>) -> Seq<Seq<char>> {
    seq!["stop"@, name]
}

pub fn start_command(c: &ContainerSpec) -> (r: Vec<String>)
    ensures
        r.deep_view() == start_args(*c),
{
    let r = vec![String::from_str("start"), c.name.clone()];
    assert(r.deep_view() =~= start_args(*c));
    r
}

pub fn run_command(c: &ContainerSpec) -> (r: Vec<String>)
    ensures
        r.deep_view() == run_args(*c),
{
    let mut ports = String::new();
    push_decimal(&mut ports, c.port as u64);
    push_char(&mut ports, ':');
    push_decimal(&mut ports, c.port as u64);
    let mut vol = c.volume.clone();
    push_char(&mut vol, ':');
    vol.append(c.mount.as_str());
    assert(ports@ =~= port_mapping(c.port as nat));
    assert(vol@ =~= c.volume@ + seq![':'] + c.mount@);
    let r = vec![
        String::from_str("run"),
        String::from_str("-d"),
        String::from_str("--name"),
        c.name.clone(),
        String::from_str("-p"),
        ports,
        String::from_str("-v"),
        vol,
        String::from_str("--restart"),
        String::from_str("unless-stopped"),
        c.image.clone(),
    ];
    assert(r.deep_view() =~= run_args(*c));
    r
}

pub fn list_command(c: &ContainerSpec) -> (r: Vec<String>)
    ensures
        r.deep_view() == list_args(*c),
{
    let mut filter = String::from_str("publish=");
    push_decimal(&mut filter, c.port as u64);
    let r = vec![
        String::from_str("ps"),
        String::from_str("--filter"),
        filter,
        String::from_str("--format"),
        String::from_str("{{.Names}}"),
    ];
    assert(r.deep_view() =~= list_args(*c));
    r
}

pub fn stop_command(name: &String) -> (r: Vec<String>)
    ensures
        r.deep_view() == stop_args(name@),
{
    let r = vec![String::from_str("stop"), name.clone()];
    assert(r.deep_view() =~= stop_args(name@));
    r
}

/// The lines of `lines` that are not blank, trimmed, in order.
pub open spec fn nonblank(lines: Seq<Seq<char>>) -> Seq<Seq<char>>
    decreases lines.len(),
{
    if lines.len() == 0 {
        Seq::empty()
    } else if trim(lines.last()).len() == 0 {
        nonblank(lines.drop_last())
    } else {
        nonblank(lines.drop_last()).push(trim(lines.last()))
    }
}

/// The containers to stop on shutdown, given the text that the listing by
/// published port printed (`None` where it could not be run): each name
/// it listed; where it listed none, the container's own name.
pub open spec fn stop_targets(listing: Option<Seq<char>>, name: Seq<char>) -> Seq<Seq<char>> {
    let names = match listing {
        Some(t) => nonblank(split_lines(t)),
        None => Seq::empty(),
    };
    if names.len() > 0 {
        names
    } else {
        seq![name]
    }
}

/// The containers to stop, from the text of the listing (see
/// `stop_targets`).
pub fn stop_targets_from_text(listing: Option<&str>, c: &ContainerSpec) -> (r: Vec<String>)
    ensures
        r.deep_view() == stop_targets(
            match listing {
                Some(t) => Some(t@),
                None => None,
            },
            c.name@,
        ),
        r.len() >= 1,
{
    let mut names: Vec<String> = Vec::new();
    if let Some(t) = listing {
        let lines = trimmed_lines(t);
        let ghost ls = split_lines(t@);
        let mut i: usize = 0;
        assert(ls.take(0) =~= Seq::<Seq<char>>::empty());
        while i < lines.len()
            invariant
                i <= lines.len() == ls.len(),
                forall|j: int| 0 <= j < lines.len() ==> #[trigger] lines[j]@ == trim(ls[j]),
                names.deep_view() == nonblank(ls.take(i as int)),
            decreases lines.len() - i,
        {
            assert(ls.take(i + 1).drop_last() =~= ls.take(i as int));
            assert(ls.take(i + 1).last() == ls[i as int]);
            assert(lines[i as int]@ == trim(ls[i as int]));
            if lines[i].len() > 0 {
                names.push(crate::env::string_of(&lines[i]));
            }
            assert(names.deep_view() =~= nonblank(ls.take(i + 1)));
            i = i + 1;
        }
        assert(ls.take(i as int) =~= ls);
    }
    if names.len() == 0 {
        let r = vec![c.name.clone()];
        assert(r.deep_view() =~= seq![c.name@]);
        r
    } else {
        names
    }
}

/// The containers to stop, from what the listing by published port wrote
/// to its standard output (`None` where it could not be run).
pub fn containers_to_stop(listing: Option<&[u8]>, c: &ContainerSpec) -> (r: Vec<String>)
    ensures
        r.deep_view() == stop_targets(
            match listing {
                Some(b) => Some(utf8_lossy(b@)),
                None => None,
            },
            c.name@,
        ),
        r.len() >= 1,
{
    match listing {
        Some(b) => {
            let text = decode_lossy(b);
            stop_targets_from_text(Some(text.as_str()), c)
        },
        None => stop_targets_from_text(None, c),
    }
}

} // verus!
