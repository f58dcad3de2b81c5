//! Registry edits on offline hive files, written as `.reg` merge scripts
//! for `hivexregedit --merge`.
use vstd::prelude::*;
use crate::num::{hex_fixed, push_hex_fixed};
use crate::fixes::tweaks::{
    ai_ntuser_ops, ai_ntuser_ops_exec, ai_software_ops, ai_software_ops_exec, ai_system_ops,
    ai_system_ops_exec, edge_default_ops, edge_default_ops_exec, edge_ntuser_ops,
    edge_ntuser_ops_exec, edge_software_ops, edge_software_ops_exec, edge_system_ops,
    edge_system_ops_exec, gamebar_system_ops, gamebar_system_ops_exec, privacy_ntuser_ops,
    privacy_ntuser_ops_exec, privacy_software_ops, privacy_software_ops_exec, privacy_system_ops,
    privacy_system_ops_exec, task_keys, task_keys_exec, folder_guids, folder_guids_exec,
    gamebar_schemes, gamebar_schemes_exec, tpm_default_ops, tpm_default_ops_exec, tpm_ntuser_ops,
    tpm_ntuser_ops_exec, tpm_software_ops, tpm_software_ops_exec, tpm_system_ops,
    tpm_system_ops_exec,
};
use crate::text::{
    chars_of, contains, contains_exec, ends_with, ends_with_exec, join_path, join_path_exec,
    join_with, owned, push_char, push_chars, replace_char, replace_char_exec, split_on,
    split_on_exec, str_views, string_of, trim_end_seq, trim_end_seq_exec, views, vviews,
};

verus! {

/// One change to a registry hive.
#[derive(Debug)]
pub enum HiveOp {
    /// Delete a key with all its values and subkeys.
    DeleteKey(String),
    /// Delete one value of a key.
    DeleteValue(String, String),
    /// Set a `REG_DWORD` value (key path, value name, data).
    SetDword(String, String, u32),
    /// Set a `REG_SZ` value (key path, value name, data).
    SetString(String, String, String),
    /// Set a `REG_MULTI_SZ` value (key path, value name, strings).
    SetMultiString(String, String, Vec<String>),
}

/// The mathematical model of a [`HiveOp`].
pub enum HiveOpView {
    DeleteKey(Seq<char>),
    DeleteValue(Seq<char>, Seq<char>),
    SetDword(Seq<char>, Seq<char>, u32),
    SetString(Seq<char>, Seq<char>, Seq<char>),
    SetMultiString(Seq<char>, Seq<char>, Seq<Seq<char>>),
}

impl View for HiveOp {
    type V = HiveOpView;

    open spec fn view(&self) -> HiveOpView {
        match self {
            HiveOp::DeleteKey(p) => HiveOpView::DeleteKey(p@),
            HiveOp::DeleteValue(p, n) => HiveOpView::DeleteValue(p@, n@),
            HiveOp::SetDword(p, n, v) => HiveOpView::SetDword(p@, n@, *v),
            HiveOp::SetString(p, n, v) => HiveOpView::SetString(p@, n@, v@),
            HiveOp::SetMultiString(p, n, vs) => HiveOpView::SetMultiString(p@, n@, views(vs@)),
        }
    }
}

/// The models of a sequence of operations.
pub open spec fn op_views(ops: Seq<HiveOp>) -> Seq<HiveOpView> {
    ops.map_values(|op: HiveOp| op@)
}

// ---------------------------------------------------------------------
// The script format
// ---------------------------------------------------------------------

/// First line of every script.
pub open spec fn reg_header() -> Seq<char> {
    "Windows Registry Editor Version 5.00\n"@
}

/// The line that opens (and creates) a key.
pub open spec fn key_line(path: Seq<char>) -> Seq<char> {
    "\n[\\"@ + path + "]\n"@
}

/// The non-empty pieces of a sequence of pieces, in order.
pub open spec fn nonempty_parts(parts: Seq<Seq<char>>) -> Seq<Seq<char>>
    decreases parts.len(),
{
    if parts.len() == 0 {
        parts
    } else if parts.last().len() > 0 {
        nonempty_parts(parts.drop_last()).push(parts.last())
    } else {
        nonempty_parts(parts.drop_last())
    }
}

/// One key line for each leading run of the components `comps`:
/// `a`, `a\b`, `a\b\c`, ...
pub open spec fn prefix_key_lines(comps: Seq<Seq<char>>) -> Seq<char>
    decreases comps.len(),
{
    if comps.len() == 0 {
        Seq::<char>::empty()
    } else {
        prefix_key_lines(comps.drop_last()) + key_line(join_with(comps, seq!['\\']))
    }
}

/// The key lines written before a value is set: every ancestor key of
/// `path` and the key itself, empty components skipped.
pub open spec fn subkey_lines(path: Seq<char>) -> Seq<char> {
    prefix_key_lines(nonempty_parts(split_on(path, '\\')))
}

/// A value name between double quotes.
pub open spec fn quoted(name: Seq<char>) -> Seq<char> {
    seq!['"'] + name + seq!['"']
}

/// A string value as written between quotes: backslashes doubled, then
/// double quotes preceded by a backslash.
pub open spec fn reg_escape(v: Seq<char>) -> Seq<char> {
    replace_char(replace_char(v, '\\', seq!['\\', '\\']), '"', seq!['\\', '"'])
}

/// The UTF-16 code units of a character.
pub open spec fn utf16_units(c: char) -> Seq<u16> {
    let v = c as int;
    if v < 0x10000 {
        seq![v as u16]
    } else {
        seq![(0xD800 + (v - 0x10000) / 0x400) as u16, (0xDC00 + (v - 0x10000) % 0x400) as u16]
    }
}

/// A code unit as two little-endian bytes.
pub open spec fn unit_bytes(u: u16) -> Seq<u8> {
    seq![(u % 256) as u8, (u / 256) as u8]
}

/// The UTF-16LE bytes of a sequence of code units.
pub open spec fn units_bytes(us: Seq<u16>) -> Seq<u8>
    decreases us.len(),
{
    if us.len() == 0 {
        Seq::<u8>::empty()
    } else {
        units_bytes(us.drop_last()) + unit_bytes(us.last())
    }
}

/// The UTF-16LE bytes of a string.
pub open spec fn utf16le(s: Seq<char>) -> Seq<u8>
    decreases s.len(),
{
    if s.len() == 0 {
        Seq::<u8>::empty()
    } else {
        utf16le(s.drop_last()) + units_bytes(utf16_units(s.last()))
    }
}

/// Each string as UTF-16LE followed by a two-byte terminator.
pub open spec fn multi_sz_body(vs: Seq<Seq<char>>) -> Seq<u8>
    decreases vs.len(),
{
    if vs.len() == 0 {
        Seq::<u8>::empty()
    } else {
        multi_sz_body(vs.drop_last()) + utf16le(vs.last()) + seq![0u8, 0u8]
    }
}

/// The data of a `REG_MULTI_SZ` value: the terminated strings and a final
/// two-byte terminator.
pub open spec fn multi_sz_bytes(vs: Seq<Seq<char>>) -> Seq<u8> {
    multi_sz_body(vs) + seq![0u8, 0u8]
}

/// The two-digit lower-case hexadecimal text of each byte.
pub open spec fn hex_pairs(bytes: Seq<u8>) -> Seq<Seq<char>> {
    bytes.map_values(|b: u8| hex_fixed(b as nat, 2))
}

/// Bytes as comma-separated two-digit lower-case hexadecimal.
pub open spec fn hex_list(bytes: Seq<u8>) -> Seq<char> {
    join_with(hex_pairs(bytes), seq![','])
}

/// The script text of one operation.
pub open spec fn op_text(op: HiveOpView) -> Seq<char> {
    match op {
        HiveOpView::DeleteKey(p) => "\n[-\\"@ + p + "]\n"@,
        HiveOpView::DeleteValue(p, n) => key_line(p) + quoted(n) + "=-\n"@,
        HiveOpView::SetDword(p, n, v) => subkey_lines(p) + quoted(n) + "=dword:"@ + hex_fixed(
            v as nat,
            8,
        ) + "\n\n"@,
        HiveOpView::SetString(p, n, v) => subkey_lines(p) + quoted(n) + "=\""@ + reg_escape(v)
            + "\"\n"@,
        HiveOpView::SetMultiString(p, n, vs) => subkey_lines(p) + quoted(n) + "=hex(7):"@
            + hex_list(multi_sz_bytes(vs)) + "\n"@,
    }
}

/// The script text of a sequence of operations, in order.
pub open spec fn ops_text(ops: Seq<HiveOpView>) -> Seq<char>
    decreases ops.len(),
{
    if ops.len() == 0 {
        Seq::<char>::empty()
    } else {
        ops_text(ops.drop_last()) + op_text(ops.last())
    }
}

/// The whole merge script for a list of operations.
pub open spec fn reg_script(ops: Seq<HiveOpView>) -> Seq<char> {
    reg_header() + ops_text(ops)
}

// ---------------------------------------------------------------------
// Writing scripts
// ---------------------------------------------------------------------

fn push_str(s: &mut String, t: &str)
    ensures
        final(s)@ == old(s)@ + t@,
{
    s.append(t);
}

/// Appends the key lines for `path` and all its ancestors.
fn push_subkey_lines(s: &mut String, path: &str)
    ensures
        final(s)@ == old(s)@ + subkey_lines(path@),
{
    let pc = chars_of(path);
    let parts = split_on_exec(&pc, '\\');
    let ghost ps = vviews(parts@);
    let ghost start = s@;
    let mut cur: Vec<char> = Vec::new();
    assert(ps.subrange(0, 0) =~= Seq::<Seq<char>>::empty());
    for i in 0..parts.len()
        invariant
            ps == vviews(parts@),
            ps == split_on(path@, '\\'),
            s@ == start + prefix_key_lines(nonempty_parts(ps.subrange(0, i as int))),
            cur@ == join_with(nonempty_parts(ps.subrange(0, i as int)), seq!['\\']),
            cur@.len() == 0 <==> nonempty_parts(ps.subrange(0, i as int)).len() == 0,
    {
        let ghost pre = ps.subrange(0, i as int);
        let ghost ne = nonempty_parts(pre);
        assert(ps.subrange(0, i + 1).drop_last() =~= pre);
        assert(ps.subrange(0, i + 1).last() == parts@[i as int]@);
        let part = &parts[i];
        if part.len() > 0 {
            if cur.len() > 0 {
                cur.push('\\');
            }
            let ghost ne2 = ne.push(part@);
            assert(nonempty_parts(ps.subrange(0, i + 1)) == ne2);
            assert(ne2.drop_last() =~= ne);
            assert(ne2.last() == part@);
            proof {
                if ne.len() > 0 {
                    assert(cur@ =~= join_with(ne, seq!['\\']) + seq!['\\']);
                }
            }
            push_vec_chars(&mut cur, part);
            assert(cur@ =~= join_with(ne2, seq!['\\']));
            let ghost before = s@;
            push_str(s, "\n[\\");
            push_chars(s, &cur);
            push_str(s, "]\n");
            assert(s@ =~= before + key_line(cur@));
        } else {
            assert(nonempty_parts(ps.subrange(0, i + 1)) == ne);
        }
    }
    assert(ps.subrange(0, ps.len() as int) =~= ps);
}

fn push_vec_chars(v: &mut Vec<char>, cs: &Vec<char>)
    ensures
        final(v)@ == old(v)@ + cs@,
{
    let ghost start = v@;
    for i in 0..cs.len()
        invariant
            v@ == start + cs@.subrange(0, i as int),
    {
        v.push(cs[i]);
        assert(cs@.subrange(0, i + 1) =~= cs@.subrange(0, i as int).push(cs@[i as int]));
    }
    assert(cs@.subrange(0, cs@.len() as int) =~= cs@);
}

/// Appends a value name between double quotes.
fn push_quoted(s: &mut String, name: &str)
    ensures
        final(s)@ == old(s)@ + quoted(name@),
{
    push_char(s, '"');
    push_str(s, name);
    push_char(s, '"');
    assert(old(s)@.push('"') + name@ + seq!['"'] =~= old(s)@ + quoted(name@));
}

/// The escaped form of a string value.
pub fn reg_escape_exec(v: &str) -> (r: Vec<char>)
    ensures
        r@ == reg_escape(v@),
{
    let vc = chars_of(v);
    let bs: Vec<char> = vec!['\\', '\\'];
    let bq: Vec<char> = vec!['\\', '"'];
    assert(bs@ =~= seq!['\\', '\\']);
    assert(bq@ =~= seq!['\\', '"']);
    let step = replace_char_exec(&vc, '\\', &bs);
    replace_char_exec(&step, '"', &bq)
}

fn push_unit(bytes: &mut Vec<u8>, u: u16)
    ensures
        final(bytes)@ == old(bytes)@ + unit_bytes(u),
{
    bytes.push((u % 256) as u8);
    bytes.push((u / 256) as u8);
    assert(final(bytes)@ =~= old(bytes)@ + unit_bytes(u));
}

proof fn lemma_units_bytes_two(a: u16, b: u16)
    ensures
        units_bytes(seq![a, b]) == unit_bytes(a) + unit_bytes(b),
{
    let s = seq![a, b];
    assert(s.drop_last() =~= seq![a]);
    assert(seq![a].drop_last() =~= Seq::<u16>::empty());
    assert(seq![a].last() == a);
    assert(units_bytes(Seq::<u16>::empty()) =~= Seq::<u8>::empty());
    assert(Seq::<u8>::empty() + unit_bytes(a) =~= unit_bytes(a));
    assert(units_bytes(seq![a]) =~= unit_bytes(a));
}

proof fn lemma_units_bytes_one(a: u16)
    ensures
        units_bytes(seq![a]) == unit_bytes(a),
{
    assert(seq![a].drop_last() =~= Seq::<u16>::empty());
    assert(seq![a].last() == a);
    assert(units_bytes(Seq::<u16>::empty()) =~= Seq::<u8>::empty());
    assert(Seq::<u8>::empty() + unit_bytes(a) =~= unit_bytes(a));
    assert(units_bytes(seq![a]) =~= unit_bytes(a));
}

/// Appends the UTF-16LE bytes of one character.
fn push_char_utf16le(bytes: &mut Vec<u8>, c: char)
    ensures
        final(bytes)@ == old(bytes)@ + units_bytes(utf16_units(c)),
{
    let v = c as u32;
    if v < 0x10000 {
        push_unit(bytes, v as u16);
        proof {
            lemma_units_bytes_one(v as u16);
        }
    } else {
        let w = v - 0x10000;
        let hi = (0xD800 + w / 0x400) as u16;
        let lo = (0xDC00 + w % 0x400) as u16;
        push_unit(bytes, hi);
        push_unit(bytes, lo);
        proof {
            lemma_units_bytes_two(hi, lo);
            assert(utf16_units(c) == seq![hi, lo]);
        }
        assert(final(bytes)@ =~= old(bytes)@ + units_bytes(utf16_units(c)));
    }
}

/// Appends the UTF-16LE bytes of a string.
fn push_str_utf16le(bytes: &mut Vec<u8>, s: &str)
    ensures
        final(bytes)@ == old(bytes)@ + utf16le(s@),
{
    let sc = chars_of(s);
    let ghost start = bytes@;
    assert(sc@.subrange(0, 0) =~= Seq::<char>::empty());
    for i in 0..sc.len()
        invariant
            sc@ == s@,
            bytes@ == start + utf16le(sc@.subrange(0, i as int)),
    {
        assert(sc@.subrange(0, i + 1).drop_last() =~= sc@.subrange(0, i as int));
        push_char_utf16le(bytes, sc[i]);
        assert(bytes@ =~= start + utf16le(sc@.subrange(0, i + 1)));
    }
    assert(sc@.subrange(0, sc@.len() as int) =~= sc@);
}

/// The data bytes of a `REG_MULTI_SZ` value.
pub fn multi_sz_bytes_exec(values: &Vec<String>) -> (r: Vec<u8>)
    ensures
        r@ == multi_sz_bytes(views(values@)),
{
    let ghost vs = views(values@);
    let mut bytes: Vec<u8> = Vec::new();
    assert(vs.subrange(0, 0) =~= Seq::<Seq<char>>::empty());
    for i in 0..values.len()
        invariant
            vs == views(values@),
            bytes@ == multi_sz_body(vs.subrange(0, i as int)),
    {
        assert(vs.subrange(0, i + 1).drop_last() =~= vs.subrange(0, i as int));
        assert(vs.subrange(0, i + 1).last() == values@[i as int]@);
        push_str_utf16le(&mut bytes, values[i].as_str());
        bytes.push(0u8);
        bytes.push(0u8);
        assert(bytes@ =~= multi_sz_body(vs.subrange(0, i + 1)));
    }
    assert(vs.subrange(0, vs.len() as int) =~= vs);
    bytes.push(0u8);
    bytes.push(0u8);
    assert(bytes@ =~= multi_sz_bytes(vs));
    bytes
}

/// Appends bytes as comma-separated two-digit hexadecimal.
fn push_hex_list(s: &mut String, bytes: &Vec<u8>)
    ensures
        final(s)@ == old(s)@ + hex_list(bytes@),
{
    let ghost start = s@;
    assert(hex_pairs(bytes@.subrange(0, 0)) =~= Seq::<Seq<char>>::empty());
    for i in 0..bytes.len()
        invariant
            s@ == start + hex_list(bytes@.subrange(0, i as int)),
    {
        let ghost pre = hex_pairs(bytes@.subrange(0, i as int));
        let ghost nxt = hex_pairs(bytes@.subrange(0, i + 1));
        assert(nxt.drop_last() =~= pre);
        assert(nxt.last() == hex_fixed(bytes@[i as int] as nat, 2));
        if i > 0 {
            push_char(s, ',');
        }
        push_hex_fixed(s, bytes[i] as u32, 2);
        assert(s@ =~= start + hex_list(bytes@.subrange(0, i + 1)));
    }
    assert(bytes@.subrange(0, bytes@.len() as int) =~= bytes@);
}

/// Appends the script text of one operation.
fn push_op(s: &mut String, op: &HiveOp)
    ensures
        final(s)@ == old(s)@ + op_text(op@),
{
    let ghost start = s@;
    match op {
        HiveOp::DeleteKey(path) => {
            push_str(s, "\n[-\\");
            push_str(s, path.as_str());
            push_str(s, "]\n");
        },
        HiveOp::DeleteValue(path, name) => {
            push_str(s, "\n[\\");
            push_str(s, path.as_str());
            push_str(s, "]\n");
            push_quoted(s, name.as_str());
            push_str(s, "=-\n");
        },
        HiveOp::SetDword(path, name, value) => {
            push_subkey_lines(s, path.as_str());
            push_quoted(s, name.as_str());
            push_str(s, "=dword:");
            push_hex_fixed(s, *value, 8);
            push_str(s, "\n\n");
        },
        HiveOp::SetString(path, name, value) => {
            push_subkey_lines(s, path.as_str());
            push_quoted(s, name.as_str());
            push_str(s, "=\"");
            let escaped = reg_escape_exec(value.as_str());
            push_chars(s, &escaped);
            push_str(s, "\"\n");
        },
        HiveOp::SetMultiString(path, name, values) => {
            push_subkey_lines(s, path.as_str());
            push_quoted(s, name.as_str());
            push_str(s, "=hex(7):");
            let bytes = multi_sz_bytes_exec(values);
            push_hex_list(s, &bytes);
            push_str(s, "\n");
        },
    }
    assert(s@ =~= start + op_text(op@));
}

/// The `.reg` merge script that applies `ops` to a hive, or `None` when
/// there is nothing to apply (the hive is then left alone).
pub fn hivex_script(ops: &[HiveOp]) -> (r: Option<String>)
    ensures
        ops@.len() == 0 <==> r is None,
        r matches Some(s) ==> s@ == reg_script(op_views(ops@)),
{
    if ops.len() == 0 {
        return None;
    }
    let mut s = String::new();
    push_str(&mut s, "Windows Registry Editor Version 5.00\n");
    let ghost all = op_views(ops@);
    assert(all.subrange(0, 0) =~= Seq::<HiveOpView>::empty());
    for i in 0..ops.len()
        invariant
            all == op_views(ops@),
            s@ == reg_header() + ops_text(all.subrange(0, i as int)),
    {
        assert(all.subrange(0, i + 1).drop_last() =~= all.subrange(0, i as int));
        assert(all.subrange(0, i + 1).last() == ops@[i as int]@);
        push_op(&mut s, &ops[i]);
        assert(s@ =~= reg_header() + ops_text(all.subrange(0, i + 1)));
    }
    assert(all.subrange(0, all.len() as int) =~= all);
    Some(s)
}

// ---------------------------------------------------------------------
// Hives and edits
// ---------------------------------------------------------------------

/// The hive files of a mounted image that the tweaks edit.
#[derive(Clone, Copy, Debug, PartialEq, Eq, Structural)]
pub enum Hive {
    /// `HKLM\SOFTWARE`.
    Software,
    /// `HKLM\SYSTEM`.
    System,
    /// `HKU\.DEFAULT`.
    Default,
    /// The default user's `HKCU`.
    NtUser,
}

/// Where a hive file lies relative to the image root.
pub open spec fn hive_rel(h: Hive) -> Seq<char> {
    match h {
        Hive::Software => "Windows/System32/config/SOFTWARE"@,
        Hive::System => "Windows/System32/config/SYSTEM"@,
        Hive::Default => "Windows/System32/config/DEFAULT"@,
        Hive::NtUser => "Users/Default/NTUSER.DAT"@,
    }
}

/// The path of a hive file of the image mounted at `mount`.
pub open spec fn hive_path(mount: Seq<char>, h: Hive) -> Seq<char> {
    join_path(mount, hive_rel(h))
}

/// The path of a hive file of the image mounted at `mount`.
pub fn hive_file(mount: &str, h: Hive) -> (r: String)
    ensures
        r@ == hive_path(mount@, h),
{
    let rel = match h {
        Hive::Software => "Windows/System32/config/SOFTWARE",
        Hive::System => "Windows/System32/config/SYSTEM",
        Hive::Default => "Windows/System32/config/DEFAULT",
        Hive::NtUser => "Users/Default/NTUSER.DAT",
    };
    join_path_exec(mount, rel)
}

/// Operations to merge into one hive file.
#[derive(Debug)]
pub struct HiveEdit {
    /// Path of the hive file.
    pub hive: String,
    /// The operations, in order.
    pub ops: Vec<HiveOp>,
}

/// The model of a [`HiveEdit`].
pub struct HiveEditView {
    pub hive: Seq<char>,
    pub ops: Seq<HiveOpView>,
}

impl View for HiveEdit {
    type V = HiveEditView;

    open spec fn view(&self) -> HiveEditView {
        HiveEditView { hive: self.hive@, ops: op_views(self.ops@) }
    }
}

/// The models of a sequence of edits.
pub open spec fn edit_views(es: Seq<HiveEdit>) -> Seq<HiveEditView> {
    es.map_values(|e: HiveEdit| e@)
}

/// The edit of hive `h` of the image at `mount` with `ops`.
pub open spec fn edit_of(mount: Seq<char>, h: Hive, ops: Seq<HiveOpView>) -> HiveEditView {
    HiveEditView { hive: hive_path(mount, h), ops }
}

fn make_edit(mount: &str, h: Hive, ops: Vec<HiveOp>) -> (r: HiveEdit)
    ensures
        r@ == edit_of(mount@, h, op_views(ops@)),
{
    HiveEdit { hive: hive_file(mount, h), ops }
}

// ---------------------------------------------------------------------
// The tweak sets
// ---------------------------------------------------------------------

/// The hive edits that finish Microsoft Edge removal.
pub open spec fn edge_registry_edits(mount: Seq<char>) -> Seq<HiveEditView> {
    seq![
        edit_of(mount, Hive::Software, edge_software_ops()),
        edit_of(mount, Hive::System, edge_system_ops()),
        edit_of(mount, Hive::Default, edge_default_ops()),
        edit_of(mount, Hive::NtUser, edge_ntuser_ops()),
    ]
}

/// Registry tweaks that finish removing Microsoft Edge, in the order they
/// are applied.
pub fn apply_edge_registry_tweaks(mount: &str) -> (r: Vec<HiveEdit>)
    ensures
        edit_views(r@) == edge_registry_edits(mount@),
{
    let r: Vec<HiveEdit> = vec![
        make_edit(mount, Hive::Software, edge_software_ops_exec()),
        make_edit(mount, Hive::System, edge_system_ops_exec()),
        make_edit(mount, Hive::Default, edge_default_ops_exec()),
        make_edit(mount, Hive::NtUser, edge_ntuser_ops_exec()),
    ];
    assert(edit_views(r@) =~= edge_registry_edits(mount@));
    r
}

/// The hive edits that turn off Copilot, Recall and the other AI features.
pub open spec fn ai_registry_edits(mount: Seq<char>) -> Seq<HiveEditView> {
    seq![
        edit_of(mount, Hive::Software, ai_software_ops()),
        edit_of(mount, Hive::System, ai_system_ops()),
        edit_of(mount, Hive::NtUser, ai_ntuser_ops()),
    ]
}

/// Registry tweaks that turn off Copilot, Recall and the other AI features.
pub fn apply_ai_registry_tweaks(mount: &str) -> (r: Vec<HiveEdit>)
    ensures
        edit_views(r@) == ai_registry_edits(mount@),
{
    let r: Vec<HiveEdit> = vec![
        make_edit(mount, Hive::Software, ai_software_ops_exec()),
        make_edit(mount, Hive::System, ai_system_ops_exec()),
        make_edit(mount, Hive::NtUser, ai_ntuser_ops_exec()),
    ];
    assert(edit_views(r@) =~= ai_registry_edits(mount@));
    r
}

/// The hive edits of the privacy and performance tweaks.
pub open spec fn privacy_registry_edits(mount: Seq<char>) -> Seq<HiveEditView> {
    seq![
        edit_of(mount, Hive::Software, privacy_software_ops()),
        edit_of(mount, Hive::System, privacy_system_ops()),
        edit_of(mount, Hive::NtUser, privacy_ntuser_ops()),
    ]
}

/// Privacy and performance tweaks: telemetry off, no sponsored apps, no
/// advertising ID, and so on.
pub fn apply_privacy_tweaks(mount: &str) -> (r: Vec<HiveEdit>)
    ensures
        edit_views(r@) == privacy_registry_edits(mount@),
{
    let r: Vec<HiveEdit> = vec![
        make_edit(mount, Hive::Software, privacy_software_ops_exec()),
        make_edit(mount, Hive::System, privacy_system_ops_exec()),
        make_edit(mount, Hive::NtUser, privacy_ntuser_ops_exec()),
    ];
    assert(edit_views(r@) =~= privacy_registry_edits(mount@));
    r
}

/// The hive edits of the TPM and hardware requirement bypass.
pub open spec fn tpm_bypass_edits(mount: Seq<char>) -> Seq<HiveEditView> {
    seq![
        edit_of(mount, Hive::System, tpm_system_ops()),
        edit_of(mount, Hive::Software, tpm_software_ops()),
        edit_of(mount, Hive::Default, tpm_default_ops()),
        edit_of(mount, Hive::NtUser, tpm_ntuser_ops()),
    ]
}

/// Registry tweaks that let setup skip the TPM, Secure Boot, CPU, RAM and
/// disk checks and hide the unsupported-hardware notices.
pub fn apply_tpm_bypass_tweaks(mount: &str) -> (r: Vec<HiveEdit>)
    ensures
        edit_views(r@) == tpm_bypass_edits(mount@),
{
    let r: Vec<HiveEdit> = vec![
        make_edit(mount, Hive::System, tpm_system_ops_exec()),
        make_edit(mount, Hive::Software, tpm_software_ops_exec()),
        make_edit(mount, Hive::Default, tpm_default_ops_exec()),
        make_edit(mount, Hive::NtUser, tpm_ntuser_ops_exec()),
    ];
    assert(edit_views(r@) =~= tpm_bypass_edits(mount@));
    r
}

/// Deleting each telemetry task from the task cache.
pub open spec fn task_ops() -> Seq<HiveOpView> {
    task_keys().map_values(|k: Seq<char>| HiveOpView::DeleteKey(k))
}

/// Removes the telemetry scheduled tasks (Customer Experience Improvement
/// Program, Program Data Updater, Compatibility Appraiser) from the task
/// cache.
pub fn apply_task_tweaks(mount: &str) -> (r: Vec<HiveEdit>)
    ensures
        edit_views(r@) == seq![edit_of(mount@, Hive::Software, task_ops())],
{
    let keys = task_keys_exec();
    assert(keys@.len() == task_ops().len());
    let mut ops: Vec<HiveOp> = Vec::new();
    for i in 0..keys.len()
        invariant
            str_views(keys@) == task_keys(),
            keys@.len() == task_ops().len(),
            op_views(ops@) == task_ops().subrange(0, i as int),
    {
        assert(keys@[i as int]@ == task_keys()[i as int]);
        assert(task_ops()[i as int] == HiveOpView::DeleteKey(task_keys()[i as int]));
        let ghost before = op_views(ops@);
        ops.push(HiveOp::DeleteKey(owned(keys[i])));
        assert(op_views(ops@) =~= before.push(HiveOpView::DeleteKey(task_keys()[i as int])));
        assert(task_ops().subrange(0, i + 1) =~= task_ops().subrange(0, i as int).push(
            task_ops()[i as int],
        ));
    }
    assert(task_ops().subrange(0, keys@.len() as int) =~= task_ops());
    let r: Vec<HiveEdit> = vec![make_edit(mount, Hive::Software, ops)];
    assert(edit_views(r@) =~= seq![edit_of(mount@, Hive::Software, task_ops())]);
    r
}

/// The key under which a shell folder is shown in "This PC".
pub open spec fn folder_key(guid: Seq<char>) -> Seq<char> {
    "Microsoft\\Windows\\CurrentVersion\\Explorer\\MyComputer\\NameSpace\\"@ + guid
}

/// The two values that make one shell folder visible.
pub open spec fn folder_ops(guid: Seq<char>) -> Seq<HiveOpView> {
    seq![
        HiveOpView::SetDword(folder_key(guid), "HideIfEnabled"@, 0),
        HiveOpView::SetDword(folder_key(guid), "HiddenByDefault"@, 0),
    ]
}

/// The operations for the first `n` folders.
pub open spec fn folders_ops(guids: Seq<Seq<char>>) -> Seq<HiveOpView>
    decreases guids.len(),
{
    if guids.len() == 0 {
        Seq::<HiveOpView>::empty()
    } else {
        folders_ops(guids.drop_last()) + folder_ops(guids.last())
    }
}

/// Shows the Desktop, Documents, Downloads, Music, Pictures and Videos
/// folders in Explorer's "This PC".
pub fn enable_user_folders(mount: &str) -> (r: Vec<HiveEdit>)
    ensures
        edit_views(r@) == seq![edit_of(mount@, Hive::Software, folders_ops(folder_guids()))],
{
    let guids = folder_guids_exec();
    let mut ops: Vec<HiveOp> = Vec::new();
    assert(folder_guids().subrange(0, 0) =~= Seq::<Seq<char>>::empty());
    for i in 0..guids.len()
        invariant
            str_views(guids@) == folder_guids(),
            op_views(ops@) == folders_ops(folder_guids().subrange(0, i as int)),
    {
        let mut key = owned("Microsoft\\Windows\\CurrentVersion\\Explorer\\MyComputer\\NameSpace\\");
        key.append(guids[i]);
        let key2 = key.clone();
        ops.push(HiveOp::SetDword(key, owned("HideIfEnabled"), 0));
        ops.push(HiveOp::SetDword(key2, owned("HiddenByDefault"), 0));
        assert(folder_guids().subrange(0, i + 1).drop_last() =~= folder_guids().subrange(0, i as int));
        assert(op_views(ops@) =~= folders_ops(folder_guids().subrange(0, i + 1)));
    }
    assert(folder_guids().subrange(0, guids@.len() as int) =~= folder_guids());
    let r: Vec<HiveEdit> = vec![make_edit(mount, Hive::Software, ops)];
    assert(edit_views(r@) =~= seq![edit_of(mount@, Hive::Software, folders_ops(folder_guids()))]);
    r
}

/// The class key of a Game Bar URL scheme.
pub open spec fn scheme_key(scheme: Seq<char>) -> Seq<char> {
    "SOFTWARE\\Classes\\"@ + scheme
}

/// The four values that point one Game Bar URL scheme at a harmless
/// program.
pub open spec fn scheme_ops(scheme: Seq<char>) -> Seq<HiveOpView> {
    seq![
        HiveOpView::SetString(scheme_key(scheme), "NoOpenWith"@, ""@),
        HiveOpView::SetString(scheme_key(scheme), "(Default)"@, "URL:"@ + scheme),
        HiveOpView::SetString(scheme_key(scheme), "URL Protocol"@, ""@),
        HiveOpView::SetString(
            scheme_key(scheme) + "\\shell\\open\\command"@,
            "(Default)"@,
            "%SystemRoot%\\System32\\systray.exe"@,
        ),
    ]
}

/// The scheme operations for each scheme, in order.
pub open spec fn schemes_ops(schemes: Seq<Seq<char>>) -> Seq<HiveOpView>
    decreases schemes.len(),
{
    if schemes.len() == 0 {
        Seq::<HiveOpView>::empty()
    } else {
        schemes_ops(schemes.drop_last()) + scheme_ops(schemes.last())
    }
}

/// The Game Bar operations on the SOFTWARE hive.
pub open spec fn gamebar_software_ops() -> Seq<HiveOpView> {
    schemes_ops(gamebar_schemes()) + seq![
        HiveOpView::SetString(
            "Microsoft\\WindowsRuntime\\Server\\Windows.Gaming.GameBar.Internal.PresenceWriterServer"@,
            "ExePath"@,
            "%SystemRoot%\\System32\\systray.exe"@,
        ),
        HiveOpView::SetDword(
            "Microsoft\\WindowsRuntime\\ActivatableClassId\\Windows.Gaming.GameBar.PresenceServer.Internal.PresenceWriter"@,
            "ActivationType"@,
            0,
        ),
    ]
}

fn scheme_ops_exec(scheme: &str) -> (r: Vec<HiveOp>)
    ensures
        op_views(r@) == scheme_ops(scheme@),
{
    let mut base = owned("SOFTWARE\\Classes\\");
    base.append(scheme);
    let mut shell_cmd = base.clone();
    shell_cmd.append("\\shell\\open\\command");
    let mut url = owned("URL:");
    url.append(scheme);
    let r: Vec<HiveOp> = vec![
        HiveOp::SetString(base.clone(), owned("NoOpenWith"), owned("")),
        HiveOp::SetString(base.clone(), owned("(Default)"), url),
        HiveOp::SetString(base, owned("URL Protocol"), owned("")),
        HiveOp::SetString(shell_cmd, owned("(Default)"), owned("%SystemRoot%\\System32\\systray.exe")),
    ];
    assert(op_views(r@) =~= scheme_ops(scheme@));
    r
}

/// Points the Game Bar URL schemes at `systray.exe`, so that games do not
/// prompt to install the removed Game Bar, and disables its service.
pub fn apply_gamebar_tweaks(mount: &str) -> (r: Vec<HiveEdit>)
    ensures
        edit_views(r@) == seq![
            edit_of(mount@, Hive::Software, gamebar_software_ops()),
            edit_of(mount@, Hive::System, gamebar_system_ops()),
        ],
{
    let schemes = gamebar_schemes_exec();
    let mut ops: Vec<HiveOp> = Vec::new();
    assert(gamebar_schemes().subrange(0, 0) =~= Seq::<Seq<char>>::empty());
    for i in 0..schemes.len()
        invariant
            str_views(schemes@) == gamebar_schemes(),
            op_views(ops@) == schemes_ops(gamebar_schemes().subrange(0, i as int)),
    {
        let ghost before = op_views(ops@);
        let mut more = scheme_ops_exec(schemes[i]);
        ops.append(&mut more);
        assert(gamebar_schemes().subrange(0, i + 1).drop_last() =~= gamebar_schemes().subrange(0, i as int));
        assert(op_views(ops@) =~= schemes_ops(gamebar_schemes().subrange(0, i + 1)));
    }
    assert(gamebar_schemes().subrange(0, schemes@.len() as int) =~= gamebar_schemes());
    let ghost before = op_views(ops@);
    ops.push(HiveOp::SetString(
        owned("Microsoft\\WindowsRuntime\\Server\\Windows.Gaming.GameBar.Internal.PresenceWriterServer"),
        owned("ExePath"),
        owned("%SystemRoot%\\System32\\systray.exe"),
    ));
    ops.push(HiveOp::SetDword(
        owned("Microsoft\\WindowsRuntime\\ActivatableClassId\\Windows.Gaming.GameBar.PresenceServer.Internal.PresenceWriter"),
        owned("ActivationType"),
        0,
    ));
    assert(op_views(ops@) =~= gamebar_software_ops());
    let r: Vec<HiveEdit> = vec![
        make_edit(mount, Hive::Software, ops),
        make_edit(mount, Hive::System, gamebar_system_ops_exec()),
    ];
    assert(edit_views(r@) =~= seq![
        edit_of(mount@, Hive::Software, gamebar_software_ops()),
        edit_of(mount@, Hive::System, gamebar_system_ops()),
    ]);
    r
}

// ---------------------------------------------------------------------
// Component-based servicing packages of the AI features
// ---------------------------------------------------------------------

/// Whether a servicing directory entry is the manifest of an AI package:
/// it ends with `.mum` and names one of AIX, Recall, Copilot or CoreAI
/// (case matters).
pub open spec fn is_cbs_ai_manifest(name: Seq<char>) -> bool {
    ends_with(name, ".mum"@) && (contains(name, "AIX"@) || contains(name, "Recall"@) || contains(
        name,
        "Copilot"@,
    ) || contains(name, "CoreAI"@))
}

/// The package names (manifest names without `.mum`) of the AI manifests
/// among `names`, in order.
pub open spec fn cbs_ai_package_names(names: Seq<Seq<char>>) -> Seq<Seq<char>>
    decreases names.len(),
{
    if names.len() == 0 {
        Seq::<Seq<char>>::empty()
    } else if is_cbs_ai_manifest(names.last()) {
        cbs_ai_package_names(names.drop_last()).push(trim_end_seq(names.last(), ".mum"@))
    } else {
        cbs_ai_package_names(names.drop_last())
    }
}

/// The servicing key of a package.
pub open spec fn cbs_key(pkg: Seq<char>) -> Seq<char> {
    "Microsoft\\Windows\\CurrentVersion\\Component Based Servicing\\Packages"@ + seq!['\\'] + pkg
}

/// The operations that make one package visible and removable.
pub open spec fn cbs_package_ops(pkg: Seq<char>) -> Seq<HiveOpView> {
    seq![
        HiveOpView::SetDword(cbs_key(pkg), "Visibility"@, 1),
        HiveOpView::SetDword(cbs_key(pkg), "DefVis"@, 2),
        HiveOpView::DeleteKey(cbs_key(pkg) + "\\Owners"@),
        HiveOpView::DeleteKey(cbs_key(pkg) + "\\Updates"@),
    ]
}

/// The package operations for each package, in order.
pub open spec fn cbs_ops(pkgs: Seq<Seq<char>>) -> Seq<HiveOpView>
    decreases pkgs.len(),
{
    if pkgs.len() == 0 {
        Seq::<HiveOpView>::empty()
    } else {
        cbs_ops(pkgs.drop_last()) + cbs_package_ops(pkgs.last())
    }
}

fn is_cbs_ai_manifest_exec(name: &str) -> (r: bool)
    ensures
        r == is_cbs_ai_manifest(name@),
{
    let n = chars_of(name);
    let mum = chars_of(".mum");
    let aix = chars_of("AIX");
    let recall = chars_of("Recall");
    let copilot = chars_of("Copilot");
    let coreai = chars_of("CoreAI");
    ends_with_exec(&n, &mum) && (contains_exec(&n, &aix) || contains_exec(&n, &recall)
        || contains_exec(&n, &copilot) || contains_exec(&n, &coreai))
}

/// The AI servicing packages among the entries of the servicing
/// `Packages` directory: the names of the AI manifests without `.mum`.
pub fn cbs_ai_packages(names: &Vec<String>) -> (r: Vec<String>)
    ensures
        views(r@) == cbs_ai_package_names(views(names@)),
{
    let ghost ns = views(names@);
    let mut r: Vec<String> = Vec::new();
    let mum = chars_of(".mum");
    proof {
        reveal_strlit(".mum");
    }
    assert(ns.subrange(0, 0) =~= Seq::<Seq<char>>::empty());
    for i in 0..names.len()
        invariant
            ns == views(names@),
            mum@ == ".mum"@,
            mum@.len() > 0,
            views(r@) == cbs_ai_package_names(ns.subrange(0, i as int)),
    {
        assert(ns.subrange(0, i + 1).drop_last() =~= ns.subrange(0, i as int));
        assert(ns.subrange(0, i + 1).last() == names@[i as int]@);
        if is_cbs_ai_manifest_exec(names[i].as_str()) {
            let n = chars_of(names[i].as_str());
            let t = trim_end_seq_exec(&n, &mum);
            r.push(string_of(&t));
        }
        assert(views(r@) =~= cbs_ai_package_names(ns.subrange(0, i + 1)));
    }
    assert(ns.subrange(0, names@.len() as int) =~= ns);
    r
}

fn cbs_package_ops_exec(pkg: &str) -> (r: Vec<HiveOp>)
    ensures
        op_views(r@) == cbs_package_ops(pkg@),
{
    let mut key = owned("Microsoft\\Windows\\CurrentVersion\\Component Based Servicing\\Packages");
    push_char(&mut key, '\\');
    key.append(pkg);
    assert(key@ =~= cbs_key(pkg@));
    let mut owners = key.clone();
    owners.append("\\Owners");
    let mut updates = key.clone();
    updates.append("\\Updates");
    let r: Vec<HiveOp> = vec![
        HiveOp::SetDword(key.clone(), owned("Visibility"), 1),
        HiveOp::SetDword(key, owned("DefVis"), 2),
        HiveOp::DeleteKey(owners),
        HiveOp::DeleteKey(updates),
    ];
    assert(op_views(r@) =~= cbs_package_ops(pkg@));
    r
}

/// The visibility tweaks for the AI servicing packages found among the
/// entries `names` of the image's servicing `Packages` directory; `None`
/// when there is none (no edit is made then).
pub fn apply_cbs_ai_tweaks(mount: &str, names: &Vec<String>) -> (r: Option<HiveEdit>)
    ensures
        cbs_ai_package_names(views(names@)).len() == 0 <==> r is None,
        r matches Some(e) ==> e@ == edit_of(
            mount@,
            Hive::Software,
            cbs_ops(cbs_ai_package_names(views(names@))),
        ),
{
    let pkgs = cbs_ai_packages(names);
    if pkgs.len() == 0 {
        return None;
    }
    let ghost ps = views(pkgs@);
    let mut ops: Vec<HiveOp> = Vec::new();
    assert(ps.subrange(0, 0) =~= Seq::<Seq<char>>::empty());
    for i in 0..pkgs.len()
        invariant
            ps == views(pkgs@),
            op_views(ops@) == cbs_ops(ps.subrange(0, i as int)),
    {
        let mut more = cbs_package_ops_exec(pkgs[i].as_str());
        ops.append(&mut more);
        assert(ps.subrange(0, i + 1).drop_last() =~= ps.subrange(0, i as int));
        assert(ps.subrange(0, i + 1).last() == pkgs@[i as int]@);
        assert(op_views(ops@) =~= cbs_ops(ps.subrange(0, i + 1)));
    }
    assert(ps.subrange(0, pkgs@.len() as int) =~= ps);
    Some(make_edit(mount, Hive::Software, ops))
}

/// Whether a servicing entry names an AI feature package manifest, said
/// directly: a `.mum` name holding AIX, Recall, Copilot or CoreAI.
pub open spec fn names_ai_manifest(name: Seq<char>) -> bool {
    &&& ends_with(name, ".mum"@)
    &&& contains(name, "AIX"@) || contains(name, "Recall"@) || contains(name, "Copilot"@)
        || contains(name, "CoreAI"@)
}

/// The AI package selection keeps exactly the AI manifests: each `.mum`
/// entry that holds AIX, Recall, Copilot or CoreAI gives its package name
/// (the entry without `.mum`), every package name kept comes from such an
/// entry, and the tweaks are skipped exactly when there is none.
pub proof fn law_cbs_selects_ai_manifests(names: Seq<Seq<char>>)
    ensures
        forall|i: int|
            0 <= i < names.len() && names_ai_manifest(#[trigger] names[i])
                ==> cbs_ai_package_names(names).contains(trim_end_seq(names[i], ".mum"@)),
        forall|k: int|
            #![trigger cbs_ai_package_names(names)[k]]
            0 <= k < cbs_ai_package_names(names).len() ==> exists|i: int|
                #![trigger names[i]]
                0 <= i < names.len() && names_ai_manifest(names[i])
                    && cbs_ai_package_names(names)[k] == trim_end_seq(names[i], ".mum"@),
        cbs_ai_package_names(names).len() == 0 <==> forall|i: int|
            0 <= i < names.len() ==> !names_ai_manifest(#[trigger] names[i]),
    decreases names.len(),
{
    if names.len() > 0 {
        let init = names.drop_last();
        law_cbs_selects_ai_manifests(init);
        let r0 = cbs_ai_package_names(init);
        let r = cbs_ai_package_names(names);
        assert forall|i: int|
            0 <= i < names.len() && names_ai_manifest(#[trigger] names[i]) implies r.contains(
                trim_end_seq(names[i], ".mum"@),
            ) by {
            if i < names.len() - 1 {
                assert(init[i] == names[i]);
                let k = choose|k: int| 0 <= k < r0.len() && r0[k] == trim_end_seq(init[i], ".mum"@);
                assert(r[k] == r0[k]);
            } else {
                assert(r[r.len() - 1] == trim_end_seq(names[i], ".mum"@));
            }
        }
        assert forall|k: int| #![trigger r[k]] 0 <= k < r.len() implies exists|i: int|
            #![trigger names[i]]
            0 <= i < names.len() && names_ai_manifest(names[i]) && r[k] == trim_end_seq(
                names[i],
                ".mum"@,
            ) by {
            if k < r0.len() {
                assert(r[k] == r0[k]);
                let i = choose|i: int|
                    #![trigger init[i]]
                    0 <= i < init.len() && names_ai_manifest(init[i]) && r0[k]
                        == trim_end_seq(init[i], ".mum"@);
                assert(names[i] == init[i]);
            } else {
                assert(names[names.len() - 1] == names.last());
            }
        }
        if r.len() == 0 {
            assert forall|i: int| 0 <= i < names.len() implies !names_ai_manifest(
                #[trigger] names[i],
            ) by {
                if i < names.len() - 1 {
                    assert(init[i] == names[i]);
                }
            }
        } else {
            let k = 0int;
            let i = choose|i: int|
                #![trigger names[i]]
                0 <= i < names.len() && names_ai_manifest(names[i]) && r[k]
                    == trim_end_seq(names[i], ".mum"@);
            assert(names_ai_manifest(names[i]));
        }
    }
}

// ---------------------------------------------------------------------
// Laws
// ---------------------------------------------------------------------

/// Scripts compose: the text for two lists of operations run one after
/// the other is the text of the first followed by that of the second.
pub proof fn law_scripts_compose(a: Seq<HiveOpView>, b: Seq<HiveOpView>)
    ensures
        ops_text(a + b) == ops_text(a) + ops_text(b),
    decreases b.len(),
{
    if b.len() == 0 {
        assert(a + b =~= a);
        assert(ops_text(a) + ops_text(b) =~= ops_text(a));
    } else {
        law_scripts_compose(a, b.drop_last());
        assert((a + b).drop_last() =~= a + b.drop_last());
        assert((a + b).last() == b.last());
        assert(ops_text(a) + ops_text(b.drop_last()) + op_text(b.last()) =~= ops_text(a) + (
        ops_text(b.drop_last()) + op_text(b.last())));
    }
}

/// Reads an escaped string value back: a backslash takes the next
/// character literally.
pub open spec fn reg_unescape(s: Seq<char>) -> Seq<char>
    decreases s.len(),
{
    if s.len() == 0 {
        s
    } else if s[0] == '\\' && s.len() >= 2 {
        seq![s[1]] + reg_unescape(s.subrange(2, s.len() as int))
    } else {
        seq![s[0]] + reg_unescape(s.subrange(1, s.len() as int))
    }
}

/// The escaped form of one character.
pub open spec fn reg_escape_one(c: char) -> Seq<char> {
    if c == '\\' {
        seq!['\\', '\\']
    } else if c == '"' {
        seq!['\\', '"']
    } else {
        seq![c]
    }
}

proof fn lemma_reg_escape_front(v: Seq<char>)
    requires
        v.len() > 0,
    ensures
        reg_escape(v) == reg_escape_one(v[0]) + reg_escape(v.subrange(1, v.len() as int)),
{
    let c = v[0];
    let rest = v.subrange(1, v.len() as int);
    let bs = seq!['\\', '\\'];
    let bq = seq!['\\', '"'];
    let p1 = if c == '\\' {
        bs
    } else {
        seq![c]
    };
    assert(replace_char(v, '\\', bs) == p1 + replace_char(rest, '\\', bs));
    crate::text::lemma_replace_char_append(p1, replace_char(rest, '\\', bs), '"', bq);
    // the second pass on the first piece
    crate::text::lemma_replace_char_one(c, '"', bq);
    crate::text::lemma_replace_char_one('\\', '"', bq);
    if c == '\\' {
        assert(bs =~= seq!['\\'] + seq!['\\']);
        crate::text::lemma_replace_char_append(seq!['\\'], seq!['\\'], '"', bq);
        assert(replace_char(bs, '"', bq) =~= bs);
    }
}

/// String values survive escaping: reading the escaped text back gives
/// the value, so distinct values are written differently.
pub proof fn law_reg_escape_reads_back(v: Seq<char>)
    ensures
        reg_unescape(reg_escape(v)) == v,
    decreases v.len(),
{
    if v.len() == 0 {
        assert(replace_char(v, '\\', seq!['\\', '\\']) =~= v);
        assert(reg_escape(v) =~= v);
    } else {
        let rest = v.subrange(1, v.len() as int);
        lemma_reg_escape_front(v);
        law_reg_escape_reads_back(rest);
        let e = reg_escape(v);
        let t = reg_escape(rest);
        let c = v[0];
        if c == '\\' || c == '"' {
            assert(e.subrange(2, e.len() as int) =~= t);
            assert(v =~= seq![c] + rest);
        } else {
            assert(e.subrange(1, e.len() as int) =~= t);
            assert(v =~= seq![c] + rest);
        }
    }
}

// ---------------------------------------------------------------------
// Reading multi-string data back
// ---------------------------------------------------------------------

/// Bytes read as little-endian 16-bit code units.
pub open spec fn le_units(b: Seq<u8>) -> Seq<u16>
    decreases b.len(),
{
    if b.len() < 2 {
        Seq::<u16>::empty()
    } else {
        seq![(b[0] as int + 256 * (b[1] as int)) as u16] + le_units(b.subrange(2, b.len() as int))
    }
}

/// UTF-16 code units decoded into characters: a high surrogate followed
/// by a low surrogate is one supplementary character, any other unit is
/// the character with that value.
pub open spec fn utf16_decode(u: Seq<u16>) -> Seq<char>
    decreases u.len(),
{
    if u.len() == 0 {
        Seq::<char>::empty()
    } else if 0xD800 <= u[0] < 0xDC00 && u.len() >= 2 && 0xDC00 <= u[1] < 0xE000 {
        seq![(0x10000 + (u[0] - 0xD800) * 0x400 + (u[1] - 0xDC00)) as char] + utf16_decode(
            u.subrange(2, u.len() as int),
        )
    } else {
        seq![u[0] as char] + utf16_decode(u.subrange(1, u.len() as int))
    }
}

/// The number of code units before the first zero unit.
pub open spec fn first_nul(u: Seq<u16>) -> nat
    decreases u.len(),
{
    if u.len() == 0 || u[0] == 0 {
        0
    } else {
        1 + first_nul(u.subrange(1, u.len() as int))
    }
}

/// The strings of `REG_MULTI_SZ` data given as code units: each runs up
/// to a zero unit, and an empty string ends the list.
pub open spec fn multi_sz_strings(u: Seq<u16>) -> Seq<Seq<char>>
    decreases u.len(),
{
    let k = first_nul(u);
    if k == 0 || k >= u.len() {
        Seq::<Seq<char>>::empty()
    } else {
        seq![utf16_decode(u.subrange(0, k as int))] + multi_sz_strings(
            u.subrange(k + 1 as int, u.len() as int),
        )
    }
}

/// The code units of a string.
pub open spec fn utf16_all(s: Seq<char>) -> Seq<u16>
    decreases s.len(),
{
    if s.len() == 0 {
        Seq::<u16>::empty()
    } else {
        utf16_all(s.drop_last()) + utf16_units(s.last())
    }
}

/// The code units of multi-string data without the final terminator.
pub open spec fn multi_units_body(vs: Seq<Seq<char>>) -> Seq<u16>
    decreases vs.len(),
{
    if vs.len() == 0 {
        Seq::<u16>::empty()
    } else {
        multi_units_body(vs.drop_last()) + utf16_all(vs.last()) + seq![0u16]
    }
}

proof fn lemma_units_bytes_append(a: Seq<u16>, b: Seq<u16>)
    ensures
        units_bytes(a + b) == units_bytes(a) + units_bytes(b),
    decreases b.len(),
{
    if b.len() == 0 {
        assert(a + b =~= a);
        assert(units_bytes(a) + units_bytes(b) =~= units_bytes(a));
    } else {
        lemma_units_bytes_append(a, b.drop_last());
        assert((a + b).drop_last() =~= a + b.drop_last());
        assert((a + b).last() == b.last());
        assert(units_bytes(a) + units_bytes(b.drop_last()) + unit_bytes(b.last()) =~= units_bytes(
            a,
        ) + (units_bytes(b.drop_last()) + unit_bytes(b.last())));
    }
}

proof fn lemma_utf16le_units(s: Seq<char>)
    ensures
        utf16le(s) == units_bytes(utf16_all(s)),
    decreases s.len(),
{
    if s.len() > 0 {
        lemma_utf16le_units(s.drop_last());
        lemma_units_bytes_append(utf16_all(s.drop_last()), utf16_units(s.last()));
    }
}

proof fn lemma_multi_body_units(vs: Seq<Seq<char>>)
    ensures
        multi_sz_body(vs) == units_bytes(multi_units_body(vs)),
    decreases vs.len(),
{
    if vs.len() > 0 {
        lemma_multi_body_units(vs.drop_last());
        lemma_utf16le_units(vs.last());
        let a = multi_units_body(vs.drop_last());
        let b = utf16_all(vs.last());
        lemma_units_bytes_append(a, b);
        lemma_units_bytes_append(a + b, seq![0u16]);
        lemma_units_bytes_one(0u16);
        assert(unit_bytes(0u16) =~= seq![0u8, 0u8]);
    }
}

proof fn lemma_le_units_append(a: Seq<u8>, b: Seq<u8>)
    requires
        a.len() % 2 == 0,
    ensures
        le_units(a + b) == le_units(a) + le_units(b),
    decreases a.len(),
{
    if a.len() == 0 {
        assert(a + b =~= b);
        assert(le_units(a) + le_units(b) =~= le_units(b));
    } else {
        let a2 = a.subrange(2, a.len() as int);
        lemma_le_units_append(a2, b);
        assert((a + b).subrange(2, (a + b).len() as int) =~= a2 + b);
        assert((a + b)[0] == a[0] && (a + b)[1] == a[1]);
        let x = seq![(a[0] as int + 256 * (a[1] as int)) as u16];
        assert(x + (le_units(a2) + le_units(b)) =~= (x + le_units(a2)) + le_units(b));
    }
}

proof fn lemma_units_bytes_len(us: Seq<u16>)
    ensures
        units_bytes(us).len() == 2 * us.len(),
    decreases us.len(),
{
    if us.len() > 0 {
        lemma_units_bytes_len(us.drop_last());
    }
}

proof fn lemma_le_units_bytes(us: Seq<u16>)
    ensures
        le_units(units_bytes(us)) == us,
    decreases us.len(),
{
    if us.len() > 0 {
        let x = us.last();
        lemma_le_units_bytes(us.drop_last());
        lemma_units_bytes_len(us.drop_last());
        lemma_le_units_append(units_bytes(us.drop_last()), unit_bytes(x));
        let b = unit_bytes(x);
        assert(b.subrange(2, 2) =~= Seq::<u8>::empty());
        assert((b[0] as int + 256 * (b[1] as int)) == x as int);
        assert(b.len() == 2);
        assert(le_units(Seq::<u8>::empty()) =~= Seq::<u16>::empty());
        assert(le_units(b) =~= seq![x]);
        assert(us.drop_last().push(x) =~= us);
    } else {
        assert(units_bytes(us) =~= Seq::<u8>::empty());
    }
}

proof fn lemma_utf16_all_front(s: Seq<char>)
    requires
        s.len() > 0,
    ensures
        utf16_all(s) == utf16_units(s[0]) + utf16_all(s.subrange(1, s.len() as int)),
    decreases s.len(),
{
    let rest = s.subrange(1, s.len() as int);
    if s.len() == 1 {
        assert(s.drop_last() =~= Seq::<char>::empty());
        assert(rest =~= Seq::<char>::empty());
        assert(utf16_units(s[0]) + Seq::<u16>::empty() =~= utf16_units(s[0]));
    } else {
        lemma_utf16_all_front(s.drop_last());
        assert(s.drop_last().subrange(1, s.drop_last().len() as int) =~= rest.drop_last());
        assert(rest.last() == s.last());
        assert(utf16_units(s[0]) + utf16_all(rest.drop_last()) + utf16_units(s.last())
            =~= utf16_units(s[0]) + (utf16_all(rest.drop_last()) + utf16_units(s.last())));
    }
}

proof fn lemma_multi_units_front(vs: Seq<Seq<char>>)
    requires
        vs.len() > 0,
    ensures
        multi_units_body(vs) == utf16_all(vs[0]) + seq![0u16] + multi_units_body(
            vs.subrange(1, vs.len() as int),
        ),
    decreases vs.len(),
{
    let rest = vs.subrange(1, vs.len() as int);
    if vs.len() == 1 {
        assert(vs.drop_last() =~= Seq::<Seq<char>>::empty());
        assert(rest =~= Seq::<Seq<char>>::empty());
        assert(Seq::<u16>::empty() + utf16_all(vs[0]) + seq![0u16] =~= utf16_all(vs[0])
            + seq![0u16] + Seq::<u16>::empty());
    } else {
        lemma_multi_units_front(vs.drop_last());
        assert(vs.drop_last().subrange(1, vs.drop_last().len() as int) =~= rest.drop_last());
        assert(rest.last() == vs.last());
        let h = utf16_all(vs[0]) + seq![0u16];
        assert(h + multi_units_body(rest.drop_last()) + utf16_all(vs.last()) + seq![0u16] =~= h
            + (multi_units_body(rest.drop_last()) + utf16_all(vs.last()) + seq![0u16]));
    }
}

proof fn lemma_char_range(c: char)
    ensures
        0 <= c as int <= 0x10FFFF,
{
}

proof fn lemma_units_nonzero(s: Seq<char>)
    requires
        !s.contains('\0'),
    ensures
        forall|i: int| 0 <= i < utf16_all(s).len() ==> #[trigger] utf16_all(s)[i] != 0,
        s.len() > 0 ==> utf16_all(s).len() > 0,
    decreases s.len(),
{
    if s.len() > 0 {
        let t = s.drop_last();
        assert(!t.contains('\0')) by {
            if t.contains('\0') {
                let j = choose|j: int| 0 <= j < t.len() && t[j] == '\0';
                assert(s[j] == '\0');
            }
        }
        lemma_units_nonzero(t);
        assert(s.last() != '\0') by {
            assert(s[s.len() - 1] == s.last());
        }
        let u = utf16_units(s.last());
        let a = utf16_all(t);
        let v = s.last() as int;
        lemma_char_range(s.last());
        assert(v != 0);
        if v < 0x10000 {
            assert(0 < v < 0x10000);
            assert(u[0] as int == v);
        } else {
            let w = v - 0x10000;
            assert(w < 0x100000);
            assert(w / 0x400 < 0x400);
            assert(u[0] as int == 0xD800 + w / 0x400);
            assert(u[1] as int == 0xDC00 + w % 0x400);
        }
        assert forall|i: int| 0 <= i < (a + u).len() implies #[trigger] (a + u)[i] != 0 by {
            if i >= a.len() {
                assert((a + u)[i] == u[i - a.len()]);
            }
        }
    }
}

proof fn lemma_first_nul(a: Seq<u16>, b: Seq<u16>)
    requires
        forall|i: int| 0 <= i < a.len() ==> #[trigger] a[i] != 0,
    ensures
        first_nul(a + seq![0u16] + b) == a.len(),
    decreases a.len(),
{
    let u = a + seq![0u16] + b;
    if a.len() == 0 {
        assert(u[0] == 0);
    } else {
        let a1 = a.subrange(1, a.len() as int);
        lemma_first_nul(a1, b);
        assert(u.subrange(1, u.len() as int) =~= a1 + seq![0u16] + b);
        assert(u[0] == a[0]);
    }
}

proof fn lemma_decode_char(c: char, rest: Seq<u16>)
    ensures
        utf16_decode(utf16_units(c) + rest) == seq![c] + utf16_decode(rest),
{
    let v = c as int;
    let u = utf16_units(c) + rest;
    if v < 0x10000 {
        assert(!(0xD800 <= v && v < 0xE000));
        assert(u[0] == v as u16);
        assert(u.subrange(1, u.len() as int) =~= rest);
        assert((u[0] as char) == c);
    } else {
        let w = v - 0x10000;
        assert(w < 0x100000);
        let hi = (0xD800 + w / 0x400) as u16;
        let lo = (0xDC00 + w % 0x400) as u16;
        assert(w / 0x400 < 0x400);
        assert(u[0] == hi && u[1] == lo);
        assert(w == (w / 0x400) * 0x400 + w % 0x400);
        assert(u.subrange(2, u.len() as int) =~= rest);
        assert((0x10000 + (hi - 0xD800) * 0x400 + (lo - 0xDC00)) == v);
    }
}

proof fn lemma_decode_all(s: Seq<char>)
    ensures
        utf16_decode(utf16_all(s)) == s,
    decreases s.len(),
{
    if s.len() > 0 {
        let rest = s.subrange(1, s.len() as int);
        lemma_utf16_all_front(s);
        lemma_decode_all(rest);
        lemma_decode_char(s[0], utf16_all(rest));
        assert(s =~= seq![s[0]] + rest);
    }
}

proof fn lemma_multi_strings(vs: Seq<Seq<char>>)
    requires
        forall|i: int| 0 <= i < vs.len() ==> (#[trigger] vs[i]).len() > 0 && !vs[i].contains('\0'),
    ensures
        multi_sz_strings(multi_units_body(vs) + seq![0u16]) == vs,
    decreases vs.len(),
{
    if vs.len() == 0 {
        let u = multi_units_body(vs) + seq![0u16];
        assert(u =~= seq![0u16]);
        assert(first_nul(u) == 0);
    } else {
        let rest = vs.subrange(1, vs.len() as int);
        assert forall|i: int| 0 <= i < rest.len() implies (#[trigger] rest[i]).len() > 0
            && !rest[i].contains('\0') by {
            assert(rest[i] == vs[i + 1]);
        }
        lemma_multi_strings(rest);
        lemma_multi_units_front(vs);
        let a = utf16_all(vs[0]);
        let tail = multi_units_body(rest) + seq![0u16];
        let u = multi_units_body(vs) + seq![0u16];
        assert(u =~= a + seq![0u16] + tail);
        lemma_units_nonzero(vs[0]);
        lemma_first_nul(a, tail);
        assert(u.subrange(0, a.len() as int) =~= a);
        assert(u.subrange(a.len() + 1 as int, u.len() as int) =~= tail);
        lemma_decode_all(vs[0]);
        assert(vs =~= seq![vs[0]] + rest);
    }
}

/// Multi-string values read back: for strings that are not empty and hold
/// no NUL character, the `REG_MULTI_SZ` data written for them, read as
/// UTF-16LE strings up to the empty one, gives back the same strings.
pub proof fn law_multi_sz_reads_back(vs: Seq<Seq<char>>)
    requires
        forall|i: int| 0 <= i < vs.len() ==> (#[trigger] vs[i]).len() > 0 && !vs[i].contains('\0'),
    ensures
        multi_sz_strings(le_units(multi_sz_bytes(vs))) == vs,
{
    lemma_multi_body_units(vs);
    lemma_units_bytes_one(0u16);
    assert(unit_bytes(0u16) =~= seq![0u8, 0u8]);
    lemma_units_bytes_append(multi_units_body(vs), seq![0u16]);
    assert(multi_sz_bytes(vs) == units_bytes(multi_units_body(vs) + seq![0u16]));
    lemma_le_units_bytes(multi_units_body(vs) + seq![0u16]);
    lemma_multi_strings(vs);
}

} // verus!
