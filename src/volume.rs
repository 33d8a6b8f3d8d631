//! Volume identity: the pure parts of resolving which volume a path lies on.
//!
//! Reading the mount table, the device links and the native volume APIs is
//! the caller's work; this module parses and matches what was read.

use vstd::prelude::*;
use vstd::string::*;
use crate::fingerprint::opt_view;
use vstd::utf8::encode_utf8;

verus! {

/// The mount-table escape for a space.
pub open spec fn space_escape() -> Seq<char> {
    seq!['\\', '0', '4', '0']
}

/// `s` with each escaped space, taken from left to right, turned back into a
/// space.
pub open spec fn decode_spec(s: Seq<char>) -> Seq<char>
    decreases s.len(),
{
    if s.len() == 0 {
        s
    } else if s.len() >= 4 && s.take(4) == space_escape() {
        seq![' '] + decode_spec(s.skip(4))
    } else {
        seq![s[0]] + decode_spec(s.skip(1))
    }
}

/// Decodes the escaped spaces of a mount-table path.
pub fn decode_mount_path(s: &str) -> (r: String)
    ensures
        r@ == decode_spec(s@),
{
    let n = s.unicode_len();
    let mut out = String::new();
    let mut i: usize = 0;
    assert(s@.skip(0) =~= s@);
    while i < n
        invariant
            n == s@.len(),
            i <= n,
            out@ + decode_spec(s@.skip(i as int)) == decode_spec(s@),
        decreases n - i,
    {
        let ghost rest = s@.skip(i as int);
        let ghost out0 = out@;
        if n - i >= 4 && s.get_char(i) == '\\' && s.get_char(i + 1) == '0' && s.get_char(i + 2)
            == '4' && s.get_char(i + 3) == '0' {
            assert(rest.take(4) =~= space_escape());
            assert(rest.skip(4) =~= s@.skip(i + 4));
            assert(decode_spec(rest) == seq![' '] + decode_spec(rest.skip(4)));
            let sp = " ";
            proof {
                reveal_strlit(" ");
            }
            assert(sp@ =~= seq![' ']);
            out.append(sp);
            i = i + 4;
            assert(out@ + decode_spec(s@.skip(i as int)) =~= out0 + decode_spec(rest));
        } else {
            assert(!(rest.len() >= 4 && rest.take(4) == space_escape())) by {
                if rest.len() >= 4 && rest.take(4) == space_escape() {
                    assert(rest.take(4)[0] == s@[i as int]);
                    assert(rest.take(4)[1] == s@[i + 1]);
                    assert(rest.take(4)[2] == s@[i + 2]);
                    assert(rest.take(4)[3] == s@[i + 3]);
                }
            }
            assert(rest.skip(1) =~= s@.skip(i + 1));
            assert(decode_spec(rest) == seq![rest[0]] + decode_spec(rest.skip(1)));
            let c = s.substring_char(i, i + 1);
            assert(c@ =~= seq![rest[0]]);
            out.append(c);
            i = i + 1;
            assert(out@ + decode_spec(s@.skip(i as int)) =~= out0 + decode_spec(rest));
        }
    }
    assert(s@.skip(n as int) =~= Seq::<char>::empty());
    out
}

/// The upper-case hexadecimal digits, by value.
pub open spec fn hex_digits() -> Seq<char> {
    seq!['0', '1', '2', '3', '4', '5', '6', '7', '8', '9', 'A', 'B', 'C', 'D', 'E', 'F']
}

/// A byte as two upper-case hexadecimal digits.
pub open spec fn hex_byte(b: u8) -> Seq<char> {
    seq![hex_digits()[(b / 16) as int], hex_digits()[(b % 16) as int]]
}

/// `n` in upper-case hexadecimal, the last `width` digits, zero-padded.
pub open spec fn hex_fixed(n: nat, width: nat) -> Seq<char>
    decreases width,
{
    if width == 0 {
        Seq::empty()
    } else {
        hex_fixed(n / 16, (width - 1) as nat) + seq![hex_digits()[(n % 16) as int]]
    }
}

/// `n` in lower-case hexadecimal, without leading zeros.
pub open spec fn hex_lower(n: nat) -> Seq<char>
    decreases n,
{
    if n < 16 {
        seq![hex_digits_lower()[n as int]]
    } else {
        hex_lower(n / 16) + seq![hex_digits_lower()[(n % 16) as int]]
    }
}

/// The lower-case hexadecimal digits, by value.
pub open spec fn hex_digits_lower() -> Seq<char> {
    seq!['0', '1', '2', '3', '4', '5', '6', '7', '8', '9', 'a', 'b', 'c', 'd', 'e', 'f']
}

fn hex_digit(table: &str, d: u32) -> (r: &str)
    requires
        table@.len() == 16,
        d < 16,
    ensures
        r@ == seq![table@[d as int]],
{
    let r = table.substring_char(d as usize, d as usize + 1);
    assert(r@ =~= seq![table@[d as int]]);
    r
}

fn append_hex_fixed(out: &mut String, n: u32, width: u32)
    ensures
        final(out)@ == old(out)@ + hex_fixed(n as nat, width as nat),
    decreases width,
{
    if width > 0 {
        append_hex_fixed(out, n / 16, width - 1);
        let table = "0123456789ABCDEF";
        proof {
            reveal_strlit("0123456789ABCDEF");
        }
        assert(table@ =~= hex_digits());
        out.append(hex_digit(table, n % 16));
    } else {
        assert(final(out)@ =~= old(out)@ + hex_fixed(n as nat, width as nat));
    }
}

fn append_hex_lower(out: &mut String, n: u32)
    ensures
        final(out)@ == old(out)@ + hex_lower(n as nat),
    decreases n,
{
    if n >= 16 {
        append_hex_lower(out, n / 16);
    }
    let table = "0123456789abcdef";
    proof {
        reveal_strlit("0123456789abcdef");
    }
    assert(table@ =~= hex_digits_lower());
    out.append(hex_digit(table, n % 16));
    assert(n < 16 ==> n % 16 == n);
}

/// Renders a volume serial number as eight upper-case hexadecimal digits.
pub fn format_volume_serial(serial: u32) -> (r: String)
    ensures
        r@ == hex_fixed(serial as nat, 8),
{
    let mut out = String::new();
    append_hex_fixed(&mut out, serial, 8);
    assert(out@ =~= hex_fixed(serial as nat, 8));
    out
}

/// Renders the two words of a filesystem id as lower-case hexadecimal joined
/// by `:`.
pub fn format_fsid(a: u32, b: u32) -> (r: String)
    ensures
        r@ == hex_lower(a as nat) + seq![':'] + hex_lower(b as nat),
{
    let mut out = String::new();
    append_hex_lower(&mut out, a);
    let colon = ":";
    proof {
        reveal_strlit(":");
    }
    assert(colon@ =~= seq![':']);
    out.append(colon);
    append_hex_lower(&mut out, b);
    assert(out@ =~= hex_lower(a as nat) + seq![':'] + hex_lower(b as nat));
    out
}

/// Whether a UUID's text has a dash after the byte at index `i`.
pub open spec fn uuid_dash_after(i: int) -> bool {
    i == 3 || i == 5 || i == 7 || i == 9
}

/// The text of the first `n` bytes of a UUID: two digits per byte, a dash
/// after bytes 3, 5, 7 and 9.
pub open spec fn uuid_prefix(b: Seq<u8>, n: nat) -> Seq<char>
    decreases n,
{
    if n == 0 {
        Seq::empty()
    } else {
        uuid_prefix(b, (n - 1) as nat) + hex_byte(b[n - 1]) + if uuid_dash_after(n - 1) {
            seq!['-']
        } else {
            Seq::empty()
        }
    }
}

fn append_hex_byte(out: &mut String, b: u8)
    ensures
        final(out)@ == old(out)@ + hex_byte(b),
{
    let table = "0123456789ABCDEF";
    proof {
        reveal_strlit("0123456789ABCDEF");
    }
    assert(table@ =~= hex_digits());
    let hi = (b / 16) as usize;
    let lo = (b % 16) as usize;
    let h = table.substring_char(hi, hi + 1);
    let l = table.substring_char(lo, lo + 1);
    assert(h@ =~= seq![hex_digits()[(b / 16) as int]]);
    assert(l@ =~= seq![hex_digits()[(b % 16) as int]]);
    out.append(h);
    out.append(l);
    assert(final(out)@ =~= old(out)@ + hex_byte(b));
}

/// Renders a 16-byte volume UUID as upper-case hexadecimal in the 8-4-4-4-12
/// grouping.
pub fn format_uuid(uuid: [u8; 16]) -> (r: String)
    ensures
        r@ == uuid_prefix(uuid@, 16),
{
    let mut out = String::new();
    let mut i: usize = 0;
    while i < 16
        invariant
            i <= 16,
            uuid@.len() == 16,
            out@ == uuid_prefix(uuid@, i as nat),
        decreases 16 - i,
    {
        append_hex_byte(&mut out, uuid[i]);
        if i == 3 || i == 5 || i == 7 || i == 9 {
            let dash = "-";
            proof {
                reveal_strlit("-");
            }
            assert(dash@ =~= seq!['-']);
            out.append(dash);
        }
        i = i + 1;
        assert(out@ =~= uuid_prefix(uuid@, i as nat));
    }
    out
}

/// The fields of a line separated by single spaces; two adjacent spaces
/// enclose an empty field.
pub open spec fn split_spaces(s: Seq<char>) -> Seq<Seq<char>>
    decreases s.len(),
{
    if s.len() == 0 {
        seq![Seq::empty()]
    } else {
        let parts = split_spaces(s.drop_last());
        if s.last() == ' ' {
            parts.push(Seq::empty())
        } else {
            parts.update(parts.len() - 1, parts.last().push(s.last()))
        }
    }
}

/// The views of a list of strings.
pub open spec fn views(v: Seq<String>) -> Seq<Seq<char>> {
    v.map_values(|p: String| p@)
}

/// Splits a line at each space.
pub fn split_fields(line: &str) -> (r: Vec<String>)
    ensures
        views(r@) == split_spaces(line@),
{
    let n = line.unicode_len();
    let mut parts: Vec<String> = Vec::new();
    let mut cur = String::new();
    let mut i: usize = 0;
    assert(line@.take(0) =~= Seq::<char>::empty());
    assert(views(parts@).push(cur@) =~= split_spaces(line@.take(0)));
    while i < n
        invariant
            n == line@.len(),
            i <= n,
            views(parts@).push(cur@) == split_spaces(line@.take(i as int)),
        decreases n - i,
    {
        let ghost before = views(parts@);
        let ghost cur0 = cur@;
        assert(line@.take(i + 1).drop_last() =~= line@.take(i as int));
        let c = line.get_char(i);
        if c == ' ' {
            parts.push(cur);
            cur = String::new();
            assert(views(parts@) =~= before.push(cur0));
            assert(views(parts@).push(cur@) =~= split_spaces(line@.take(i + 1)));
        } else {
            let piece = line.substring_char(i, i + 1);
            assert(piece@ =~= seq![c]);
            cur.append(piece);
            assert(cur@ =~= cur0.push(c));
            assert(views(parts@).push(cur@) =~= before.push(cur0).update(
                before.len() as int,
                cur0.push(c),
            ));
        }
        i = i + 1;
    }
    assert(line@.take(n as int) =~= line@);
    parts.push(cur);
    assert(views(parts@) =~= split_spaces(line@));
    parts
}

/// One mount of the mount table: where it is mounted, what backs it, and the
/// `major:minor` number of its device.
#[derive(Clone, Debug)]
pub struct MountEntry {
    pub mount_point: String,
    pub source: String,
    pub dev_id: String,
}

/// The fields of a mount, as text.
pub struct MountView {
    pub mount_point: Seq<char>,
    pub source: Seq<char>,
    pub dev_id: Seq<char>,
}

impl View for MountEntry {
    type V = MountView;

    open spec fn view(&self) -> MountView {
        MountView { mount_point: self.mount_point@, source: self.source@, dev_id: self.dev_id@ }
    }
}

/// The index of the first field, from `from` on, that is a lone `-`.
pub open spec fn first_dash(parts: Seq<Seq<char>>, from: int) -> Option<int>
    decreases parts.len() - from,
{
    if from < 0 || from >= parts.len() {
        None
    } else if parts[from] == seq!['-'] {
        Some(from)
    } else {
        first_dash(parts, from + 1)
    }
}

/// The mount a mount-table line describes: a line of at least ten fields, with
/// a lone `-` that has at least two fields after it. The mount point is field
/// 4, the device number field 2, the source the second field after the `-`;
/// paths are decoded.
pub open spec fn mount_entry_of(line: Seq<char>) -> Option<MountView> {
    let parts = split_spaces(line);
    if parts.len() < 10 {
        None
    } else {
        match first_dash(parts, 0) {
            None => None,
            Some(d) => if d + 2 >= parts.len() {
                None
            } else {
                Some(
                    MountView {
                        mount_point: decode_spec(parts[4]),
                        source: decode_spec(parts[d + 2]),
                        dev_id: parts[2],
                    },
                )
            },
        }
    }
}

proof fn lemma_first_dash_range(parts: Seq<Seq<char>>, from: int)
    ensures
        first_dash(parts, from) matches Some(d) ==> from <= d < parts.len() && parts[d] == seq![
            '-',
        ],
    decreases parts.len() - from,
{
    if 0 <= from < parts.len() && parts[from] != seq!['-'] {
        lemma_first_dash_range(parts, from + 1);
    }
}

/// Parses one line of the mount table.
pub fn parse_mount_line(line: &str) -> (r: Option<MountEntry>)
    ensures
        match r {
            Some(m) => mount_entry_of(line@) == Some(m@),
            None => mount_entry_of(line@) is None,
        },
{
    let parts = split_fields(line);
    let ghost ps = split_spaces(line@);
    assert(parts@.len() == ps.len());
    if parts.len() < 10 {
        return None;
    }
    let mut j: usize = 0;
    let mut dash: Option<usize> = None;
    while dash.is_none() && j < parts.len()
        invariant
            views(parts@) == ps,
            j <= parts@.len(),
            dash is None ==> first_dash(ps, 0) == first_dash(ps, j as int),
            dash matches Some(d) ==> first_dash(ps, 0) == Some(d as int),
        decreases parts.len() - j,
    {
        assert(ps[j as int] == parts@[j as int]@);
        let p = parts[j].as_str();
        if p.unicode_len() == 1 && p.get_char(0) == '-' {
            assert(p@ =~= seq!['-']);
            assert(first_dash(ps, j as int) == Some(j as int));
            dash = Some(j);
        } else {
            assert(ps[j as int] != seq!['-']);
        }
        j = j + 1;
    }
    let d = match dash {
        Some(d) => d,
        None => {
            return None;
        },
    };
    proof {
        lemma_first_dash_range(ps, 0);
    }
    if d >= parts.len() - 2 {
        return None;
    }
    assert(ps[4] == parts@[4]@);
    assert(ps[2] == parts@[2]@);
    assert(ps[d + 2] == parts@[d + 2]@);
    let mount_point = decode_mount_path(parts[4].as_str());
    let source = decode_mount_path(parts[d + 2].as_str());
    let dev_id = parts[2].clone();
    Some(MountEntry { mount_point, source, dev_id })
}

/// Whether the path `base` is a leading run of the components of `path`.
pub uninterp spec fn path_starts_with(path: Seq<char>, base: Seq<char>) -> bool;

/// Relies on std::path::Path::starts_with: whether `base` is a prefix of
/// `path`, component by component, which depends on the two texts alone.
#[verifier::external_body]
fn has_path_prefix(path: &str, base: &str) -> (r: bool)
    ensures
        r == path_starts_with(path@, base@),
{
    std::path::Path::new(path).starts_with(base)
}

/// Whether a mount-table line describes a mount that `target` lies under.
pub open spec fn mounted_under(line: Seq<char>, target: Seq<char>) -> bool {
    mount_entry_of(line) matches Some(m) && path_starts_with(target, m.mount_point)
}

/// The length in UTF-8 bytes of the mount point a mount-table line
/// describes.
pub open spec fn mount_len(line: Seq<char>) -> int {
    match mount_entry_of(line) {
        Some(m) => encode_utf8(m.mount_point).len() as int,
        None => 0,
    }
}

/// Whether line `k` holds the mount that `target` resolves to: the first of
/// the mounts with the longest mount point among those `target` lies under.
pub open spec fn is_best_mount(lines: Seq<Seq<char>>, target: Seq<char>, k: int) -> bool {
    &&& 0 <= k < lines.len()
    &&& mounted_under(lines[k], target)
    &&& forall|j: int|
        0 <= j < lines.len() && mounted_under(lines[j], target) ==> #[trigger] mount_len(lines[j])
            <= mount_len(lines[k])
    &&& forall|j: int|
        0 <= j < k && mounted_under(lines[j], target) ==> #[trigger] mount_len(lines[j]) < mount_len(
            lines[k],
        )
}

/// The length of a text in UTF-8 bytes.
fn byte_len(s: &String) -> (r: usize)
    ensures
        r == encode_utf8(s@).len(),
{
    s.as_str().as_bytes().len()
}

/// Finds the mount that the canonical path `target` lies on, from the lines
/// of the mount table: of the mounts whose mount point is a prefix of
/// `target`, the first with the longest mount point in bytes.
pub fn linux_mount_info(target: &str, lines: &Vec<String>) -> (r: Option<MountEntry>)
    ensures
        r is None <==> forall|k: int|
            0 <= k < lines@.len() ==> !mounted_under(#[trigger] lines@[k]@, target@),
        r matches Some(m) ==> exists|k: int|
            is_best_mount(views(lines@), target@, k) && mount_entry_of(#[trigger] lines@[k]@)
                == Some(m@),
{
    let ghost ls = views(lines@);
    let mut best: Option<MountEntry> = None;
    let ghost mut bk: int = 0;
    let mut i: usize = 0;
    while i < lines.len()
        invariant
            ls == views(lines@),
            i <= lines@.len(),
            best is None <==> forall|k: int| 0 <= k < i ==> !mounted_under(#[trigger] ls[k], target@),
            best matches Some(m) ==> {
                &&& 0 <= bk < i
                &&& mounted_under(ls[bk], target@)
                &&& mount_entry_of(ls[bk]) == Some(m@)
                &&& forall|j: int|
                    0 <= j < i && mounted_under(ls[j], target@) ==> #[trigger] mount_len(ls[j])
                        <= mount_len(ls[bk])
                &&& forall|j: int|
                    0 <= j < bk && mounted_under(ls[j], target@) ==> #[trigger] mount_len(ls[j])
                        < mount_len(ls[bk])
            },
        decreases lines.len() - i,
    {
        assert(ls[i as int] == lines@[i as int]@);
        match parse_mount_line(lines[i].as_str()) {
            Some(e) => {
                if has_path_prefix(target, e.mount_point.as_str()) {
                    let replace = match &best {
                        Some(b) => byte_len(&e.mount_point) > byte_len(&b.mount_point),
                        None => true,
                    };
                    if replace {
                        proof {
                            bk = i as int;
                        }
                        best = Some(e);
                    }
                }
            },
            None => {},
        }
        i = i + 1;
    }
    proof {
        if best is Some {
            assert(is_best_mount(ls, target@, bk));
            assert(mount_entry_of(lines@[bk]@) == mount_entry_of(ls[bk]));
        } else {
            assert forall|k: int| 0 <= k < lines@.len() implies !mounted_under(
                #[trigger] lines@[k]@,
                target@,
            ) by {
                assert(ls[k] == lines@[k]@);
            }
        }
    }
    best
}

/// The directory of device nodes.
pub open spec fn dev_dir() -> Seq<char> {
    seq!['/', 'd', 'e', 'v']
}

/// The device nodes that may back a mount, in the order they are tried: the
/// mount's source when it lies under `/dev`, then the node named after the
/// block device that the kernel reports for the mount, if it reports one.
pub open spec fn candidates_spec(source: Seq<char>, block_name: Option<Seq<char>>) -> Seq<
    Seq<char>,
> {
    let first: Seq<Seq<char>> = if path_starts_with(source, dev_dir()) {
        seq![source]
    } else {
        seq![]
    };
    match block_name {
        Some(n) => first.push(dev_dir() + seq!['/'] + n),
        None => first,
    }
}

/// Lists the device nodes that may back a mount. `block_name` is the file
/// name of the kernel's block-device entry for the mount, if any.
pub fn device_candidates(source: &str, block_name: Option<String>) -> (r: Vec<String>)
    ensures
        views(r@) == candidates_spec(source@, opt_view(block_name)),
{
    let dev = "/dev";
    let slash = "/";
    proof {
        reveal_strlit("/dev");
        reveal_strlit("/");
    }
    assert(dev@ =~= dev_dir());
    assert(slash@ =~= seq!['/']);
    let mut r: Vec<String> = Vec::new();
    if has_path_prefix(source, dev) {
        r.push(String::from_str(source));
    }
    assert(views(r@) =~= if path_starts_with(source@, dev_dir()) {
        seq![source@]
    } else {
        seq![]
    });
    let ghost first = views(r@);
    match block_name {
        Some(n) => {
            let mut node = String::from_str(dev);
            node.append(slash);
            node.append(n.as_str());
            assert(node@ =~= dev_dir() + seq!['/'] + n@);
            r.push(node);
            assert(views(r@) =~= first.push(dev_dir() + seq!['/'] + n@));
        },
        None => {},
    }
    r
}

/// An entry of the directory of links by filesystem UUID: its file name, when
/// it is valid text, and the canonical path of the device it points to.
#[derive(Clone, Debug)]
pub struct UuidLink {
    pub name: Option<String>,
    pub target: String,
}

/// Whether a UUID link names the device `device`.
pub open spec fn link_names(link: UuidLink, device: Seq<char>) -> bool {
    link.name is Some && link.target@ == device
}

/// Finds the filesystem UUID of a mount: for the first device (in order) that
/// some link points to, the name of the first such link. `devices` are the
/// canonical paths of the candidate device nodes.
pub fn find_uuid(devices: &Vec<String>, links: &Vec<UuidLink>) -> (r: Option<String>)
    ensures
        r is None <==> forall|i: int, j: int|
            0 <= i < devices@.len() && 0 <= j < links@.len() ==> !link_names(
                #[trigger] links@[j],
                #[trigger] devices@[i]@,
            ),
        r matches Some(n) ==> exists|i: int, j: int|
            {
                &&& 0 <= i < devices@.len()
                &&& 0 <= j < links@.len()
                &&& link_names(#[trigger] links@[j], #[trigger] devices@[i]@)
                &&& opt_view(links@[j].name) == Some(n@)
                &&& forall|i2: int, j2: int|
                    0 <= i2 < i && 0 <= j2 < links@.len() ==> !link_names(
                        #[trigger] links@[j2],
                        #[trigger] devices@[i2]@,
                    )
                &&& forall|j2: int| 0 <= j2 < j ==> !link_names(#[trigger] links@[j2], devices@[i]@)
            },
{
    let mut i: usize = 0;
    while i < devices.len()
        invariant
            i <= devices@.len(),
            forall|i2: int, j2: int|
                0 <= i2 < i && 0 <= j2 < links@.len() ==> !link_names(
                    #[trigger] links@[j2],
                    #[trigger] devices@[i2]@,
                ),
        decreases devices.len() - i,
    {
        let mut j: usize = 0;
        while j < links.len()
            invariant
                i < devices@.len(),
                j <= links@.len(),
                forall|i2: int, j2: int|
                    0 <= i2 < i && 0 <= j2 < links@.len() ==> !link_names(
                        #[trigger] links@[j2],
                        #[trigger] devices@[i2]@,
                    ),
                forall|j2: int| 0 <= j2 < j ==> !link_names(#[trigger] links@[j2], devices@[i as int]@),
            decreases links.len() - j,
        {
            let link = &links[j];
            if link.target == devices[i] {
                match &link.name {
                    Some(n) => {
                        let found = n.clone();
                        assert(link_names(links@[j as int], devices@[i as int]@));
                        return Some(found);
                    },
                    None => {},
                }
            }
            j = j + 1;
        }
        i = i + 1;
    }
    None
}

} // verus!
