//! The answer file (`autounattend.xml`) for unattended Windows setup.
use vstd::prelude::*;
use crate::num::{decimal, to_decimal};
use crate::text::{
    chars_of, contains, join_path, join_path_exec, lemma_contains_prefix, lemma_contains_suffix,
    lemma_contains_trans, push_char,
};

verus! {

// ---------------------------------------------------------------------
// Settings
// ---------------------------------------------------------------------

/// The choices that the answer file encodes.
#[derive(Debug)]
pub struct UnattendSettings {
    // windowsPE
    /// Accept the EULA automatically (true = no EULA prompt)
    pub accept_eula: bool,
    /// Show dynamic update UI only on error, suppressing it during normal flow
    pub dynamic_update_on_error_only: bool,
    /// Disable network access during WinPE phase
    pub disable_network_in_pe: bool,
    /// Keep firewall enabled during WinPE phase
    pub enable_firewall_in_pe: bool,
    /// Show product key prompt during setup (false = skip key entry)
    pub show_product_key_ui: bool,
    // oobeSystem
    /// Skip the machine OOBE flow entirely
    pub skip_machine_oobe: bool,
    /// Skip the per-user OOBE flow
    pub skip_user_oobe: bool,
    /// Hide the EULA page in OOBE
    pub hide_eula_page: bool,
    /// Hide "sign in with Microsoft" screens — allows local account creation
    pub hide_online_account_screens: bool,
    /// Hide wireless setup during OOBE
    pub hide_wireless_setup: bool,
    /// Hide the local account screen (keep false — we want local accounts)
    pub hide_local_account_screen: bool,
    /// 1 = recommended settings, 2 = install only, 3 = don't configure
    pub protect_your_pc: u8,
}

/// The default settings: skip as much of OOBE as possible while still
/// bypassing the Microsoft account requirement and keeping the firewall up
/// during PE.
pub open spec fn default_settings() -> UnattendSettings {
    UnattendSettings {
        accept_eula: true,
        dynamic_update_on_error_only: true,
        disable_network_in_pe: true,
        enable_firewall_in_pe: true,
        show_product_key_ui: false,
        skip_machine_oobe: true,
        skip_user_oobe: true,
        hide_eula_page: true,
        hide_online_account_screens: true,
        hide_wireless_setup: true,
        hide_local_account_screen: false,
        protect_your_pc: 3,
    }
}

impl Default for UnattendSettings {
    /// Skip as much of OOBE as possible while still bypassing the Microsoft
    /// account requirement and keeping the firewall up during PE.
    fn default() -> (r: Self)
        ensures
            r == default_settings(),
    {
        UnattendSettings {
            accept_eula: true,
            dynamic_update_on_error_only: true,
            disable_network_in_pe: true,
            enable_firewall_in_pe: true,
            show_product_key_ui: false,
            skip_machine_oobe: true,
            skip_user_oobe: true,
            hide_eula_page: true,
            hide_online_account_screens: true,
            hide_wireless_setup: true,
            hide_local_account_screen: false,
            protect_your_pc: 3,
        }
    }
}

// ---------------------------------------------------------------------
// XML text
// ---------------------------------------------------------------------

/// The text that stands for one character in XML content or in an
/// attribute value.
pub open spec fn xml_escape_char(c: char) -> Seq<char> {
    if c == '&' {
        seq!['&', 'a', 'm', 'p', ';']
    } else if c == '<' {
        seq!['&', 'l', 't', ';']
    } else if c == '>' {
        seq!['&', 'g', 't', ';']
    } else if c == '"' {
        seq!['&', 'q', 'u', 'o', 't', ';']
    } else if c == '\'' {
        seq!['&', 'a', 'p', 'o', 's', ';']
    } else {
        seq![c]
    }
}

/// Text escaped for XML content and attribute values.
pub open spec fn xml_escape(s: Seq<char>) -> Seq<char>
    decreases s.len(),
{
    if s.len() == 0 {
        s
    } else {
        xml_escape_char(s[0]) + xml_escape(s.subrange(1, s.len() as int))
    }
}

/// The attributes of a start tag, each preceded by a space.
pub open spec fn attrs_text(attrs: Seq<(Seq<char>, Seq<char>)>) -> Seq<char>
    decreases attrs.len(),
{
    if attrs.len() == 0 {
        Seq::<char>::empty()
    } else {
        attrs_text(attrs.drop_last()) + seq![' '] + attrs.last().0 + seq!['=', '"'] + xml_escape(
            attrs.last().1,
        ) + seq!['"']
    }
}

/// An element with its attributes and its (already written) content.
pub open spec fn elem(name: Seq<char>, attrs: Seq<(Seq<char>, Seq<char>)>, body: Seq<char>) -> Seq<
    char,
> {
    seq!['<'] + name + attrs_text(attrs) + seq!['>'] + body + seq!['<', '/'] + name + seq!['>']
}

/// An element without attributes whose content is `text`.
pub open spec fn leaf(name: Seq<char>, text: Seq<char>) -> Seq<char> {
    elem(name, Seq::empty(), xml_escape(text))
}

/// The models of attribute lists.
pub open spec fn attr_views(a: Seq<(&str, &str)>) -> Seq<(Seq<char>, Seq<char>)> {
    a.map_values(|p: (&str, &str)| (p.0@, p.1@))
}

/// `true` or `false`.
pub open spec fn bool_text(b: bool) -> Seq<char> {
    if b {
        "true"@
    } else {
        "false"@
    }
}

proof fn lemma_xml_escape_append(a: Seq<char>, b: Seq<char>)
    ensures
        xml_escape(a + b) == xml_escape(a) + xml_escape(b),
    decreases a.len(),
{
    if a.len() == 0 {
        assert(a + b =~= b);
        assert(xml_escape(a) + xml_escape(b) =~= xml_escape(b));
    } else {
        let a1 = a.subrange(1, a.len() as int);
        lemma_xml_escape_append(a1, b);
        assert((a + b).subrange(1, (a + b).len() as int) =~= a1 + b);
        assert((a + b)[0] == a[0]);
        assert(xml_escape_char(a[0]) + (xml_escape(a1) + xml_escape(b)) =~= (xml_escape_char(a[0])
            + xml_escape(a1)) + xml_escape(b));
    }
}

proof fn lemma_xml_escape_one(c: char)
    ensures
        xml_escape(seq![c]) == xml_escape_char(c),
{
    let s = seq![c];
    assert(s.subrange(1, 1) =~= Seq::<char>::empty());
    assert(xml_escape(Seq::<char>::empty()) =~= Seq::<char>::empty());
    assert(xml_escape_char(c) + Seq::<char>::empty() =~= xml_escape_char(c));
}

fn push_seq(out: &mut String, cs: &[char])
    ensures
        final(out)@ == old(out)@ + cs@,
{
    crate::text::push_chars(out, cs);
}

/// Appends `text` escaped for XML.
pub fn push_xml_escaped(out: &mut String, text: &str)
    ensures
        final(out)@ == old(out)@ + xml_escape(text@),
{
    let t = chars_of(text);
    let ghost start = out@;
    assert(t@.subrange(0, 0) =~= Seq::<char>::empty());
    for i in 0..t.len()
        invariant
            t@ == text@,
            out@ == start + xml_escape(t@.subrange(0, i as int)),
    {
        let c = t[i];
        proof {
            assert(t@.subrange(0, i + 1) =~= t@.subrange(0, i as int) + seq![c]);
            lemma_xml_escape_append(t@.subrange(0, i as int), seq![c]);
            lemma_xml_escape_one(c);
        }
        let ghost before = out@;
        if c == '&' {
            let e: Vec<char> = vec!['&', 'a', 'm', 'p', ';'];
            push_seq(out, &e);
        } else if c == '<' {
            let e: Vec<char> = vec!['&', 'l', 't', ';'];
            push_seq(out, &e);
        } else if c == '>' {
            let e: Vec<char> = vec!['&', 'g', 't', ';'];
            push_seq(out, &e);
        } else if c == '"' {
            let e: Vec<char> = vec!['&', 'q', 'u', 'o', 't', ';'];
            push_seq(out, &e);
        } else if c == '\'' {
            let e: Vec<char> = vec!['&', 'a', 'p', 'o', 's', ';'];
            push_seq(out, &e);
        } else {
            push_char(out, c);
        }
        assert(out@ =~= before + xml_escape_char(c));
    }
    assert(t@.subrange(0, t@.len() as int) =~= t@);
}

fn push_str(out: &mut String, s: &str)
    ensures
        final(out)@ == old(out)@ + s@,
{
    out.append(s);
}

/// Appends the attributes of a start tag.
fn push_attrs(out: &mut String, attrs: &[(&str, &str)])
    ensures
        final(out)@ == old(out)@ + attrs_text(attr_views(attrs@)),
{
    let ghost start = out@;
    let ghost all = attr_views(attrs@);
    assert(all.subrange(0, 0) =~= Seq::<(Seq<char>, Seq<char>)>::empty());
    for i in 0..attrs.len()
        invariant
            all == attr_views(attrs@),
            out@ == start + attrs_text(all.subrange(0, i as int)),
    {
        let ghost before = out@;
        let (n, v) = attrs[i];
        push_char(out, ' ');
        push_str(out, n);
        push_char(out, '=');
        push_char(out, '"');
        push_xml_escaped(out, v);
        push_char(out, '"');
        assert(all.subrange(0, i + 1).drop_last() =~= all.subrange(0, i as int));
        assert(all.subrange(0, i + 1).last() == (n@, v@));
        assert(out@ =~= start + attrs_text(all.subrange(0, i + 1)));
    }
    assert(all.subrange(0, attrs@.len() as int) =~= all);
}

/// An element with attributes around already written content.
pub fn elem_exec(name: &str, attrs: &[(&str, &str)], body: &str) -> (r: String)
    ensures
        r@ == elem(name@, attr_views(attrs@), body@),
{
    let mut out = String::new();
    push_char(&mut out, '<');
    push_str(&mut out, name);
    push_attrs(&mut out, attrs);
    push_char(&mut out, '>');
    push_str(&mut out, body);
    push_char(&mut out, '<');
    push_char(&mut out, '/');
    push_str(&mut out, name);
    push_char(&mut out, '>');
    assert(out@ =~= elem(name@, attr_views(attrs@), body@));
    out
}

/// An element without attributes around escaped text.
pub fn leaf_exec(name: &str, text: &str) -> (r: String)
    ensures
        r@ == leaf(name@, text@),
{
    let mut t = String::new();
    push_xml_escaped(&mut t, text);
    let empty: Vec<(&str, &str)> = Vec::new();
    assert(attr_views(empty@) =~= Seq::<(Seq<char>, Seq<char>)>::empty());
    elem_exec(name, empty.as_slice(), t.as_str())
}

fn bool_str(b: bool) -> (r: &'static str)
    ensures
        r@ == bool_text(b),
{
    if b {
        "true"
    } else {
        "false"
    }
}

fn cat2(a: String, b: String) -> (r: String)
    ensures
        r@ == a@ + b@,
{
    let mut r = a;
    r.append(b.as_str());
    r
}

// ---------------------------------------------------------------------
// The answer file
// ---------------------------------------------------------------------

/// `wcm:action="add"`.
pub open spec fn add_action() -> Seq<(Seq<char>, Seq<char>)> {
    seq![("wcm:action"@, "add"@)]
}

/// The attributes of a component.
pub open spec fn component_attrs(name: Seq<char>) -> Seq<(Seq<char>, Seq<char>)> {
    seq![
        ("name"@, name),
        ("processorArchitecture"@, "amd64"@),
        ("publicKeyToken"@, "31bf3856ad364e35"@),
        ("language"@, "neutral"@),
        ("versionScope"@, "nonSxS"@),
    ]
}

/// The attributes of a component that declares the `wcm` and `xsi`
/// namespaces.
pub open spec fn component_ns_attrs(name: Seq<char>) -> Seq<(Seq<char>, Seq<char>)> {
    component_attrs(name) + seq![
        ("xmlns:wcm"@, "http://schemas.microsoft.com/WMIConfig/2002/State"@),
        ("xmlns:xsi"@, "http://www.w3.org/2001/XMLSchema-instance"@),
    ]
}

fn component_ns_attrs_exec(name: &str) -> (r: Vec<(&str, &str)>)
    ensures
        attr_views(r@) == component_ns_attrs(name@),
{
    let r: Vec<(&str, &str)> = vec![
        ("name", name),
        ("processorArchitecture", "amd64"),
        ("publicKeyToken", "31bf3856ad364e35"),
        ("language", "neutral"),
        ("versionScope", "nonSxS"),
        ("xmlns:wcm", "http://schemas.microsoft.com/WMIConfig/2002/State"),
        ("xmlns:xsi", "http://www.w3.org/2001/XMLSchema-instance"),
    ];
    assert(attr_views(r@) =~= component_ns_attrs(name@));
    r
}

fn add_action_exec() -> (r: Vec<(&'static str, &'static str)>)
    ensures
        attr_views(r@) == add_action(),
{
    let r: Vec<(&str, &str)> = vec![("wcm:action", "add")];
    assert(attr_views(r@) =~= add_action());
    r
}

fn no_attrs() -> (r: Vec<(&'static str, &'static str)>)
    ensures
        attr_views(r@) == Seq::<(Seq<char>, Seq<char>)>::empty(),
{
    let r: Vec<(&str, &str)> = Vec::new();
    assert(attr_views(r@) =~= Seq::<(Seq<char>, Seq<char>)>::empty());
    r
}

/// The language settings of the windowsPE pass.
pub open spec fn pe_international(lang: Seq<char>) -> Seq<char> {
    elem(
        "component"@,
        component_ns_attrs("Microsoft-Windows-International-Core-WinPE"@),
        elem("SetupUILanguage"@, Seq::empty(), leaf("UILanguage"@, lang) + leaf("WillShowUI"@, "Never"@))
            + leaf("InputLocale"@, lang) + leaf("SystemLocale"@, lang) + leaf("UILanguage"@, lang)
            + leaf("UserLocale"@, lang),
    )
}

fn pe_international_exec(lang: &str) -> (r: String)
    ensures
        r@ == pe_international(lang@),
{
    let ui = cat2(leaf_exec("UILanguage", lang), leaf_exec("WillShowUI", "Never"));
    let mut body = elem_exec("SetupUILanguage", no_attrs().as_slice(), ui.as_str());
    body = cat2(body, leaf_exec("InputLocale", lang));
    body = cat2(body, leaf_exec("SystemLocale", lang));
    body = cat2(body, leaf_exec("UILanguage", lang));
    body = cat2(body, leaf_exec("UserLocale", lang));
    let attrs = component_ns_attrs_exec("Microsoft-Windows-International-Core-WinPE");
    elem_exec("component", attrs.as_slice(), body.as_str())
}

/// One partition to create.
pub open spec fn create_partition(order: Seq<char>, typ: Seq<char>, last: Seq<char>) -> Seq<char> {
    elem("CreatePartition"@, add_action(), leaf("Order"@, order) + leaf("Type"@, typ) + last)
}

/// The disk layout: wipe disk 0, create EFI, MSR and Windows partitions.
pub open spec fn disk_configuration() -> Seq<char> {
    elem(
        "DiskConfiguration"@,
        Seq::empty(),
        leaf("WillShowUI"@, "Never"@) + elem(
            "Disk"@,
            add_action(),
            leaf("DiskID"@, "0"@) + leaf("WillWipeDisk"@, "true"@) + elem(
                "CreatePartitions"@,
                Seq::empty(),
                create_partition("1"@, "EFI"@, leaf("Size"@, "100"@)) + create_partition(
                    "2"@,
                    "MSR"@,
                    leaf("Size"@, "16"@),
                ) + create_partition("3"@, "Primary"@, leaf("Extend"@, "true"@)),
            ) + elem(
                "ModifyPartitions"@,
                Seq::empty(),
                elem(
                    "ModifyPartition"@,
                    add_action(),
                    leaf("Order"@, "1"@) + leaf("PartitionID"@, "1"@) + leaf("Format"@, "FAT32"@)
                        + leaf("Label"@, "System"@),
                ) + elem(
                    "ModifyPartition"@,
                    add_action(),
                    leaf("Order"@, "2"@) + leaf("PartitionID"@, "2"@),
                ) + elem(
                    "ModifyPartition"@,
                    add_action(),
                    leaf("Order"@, "3"@) + leaf("PartitionID"@, "3"@) + leaf("Format"@, "NTFS"@)
                        + leaf("Label"@, "Windows"@) + leaf("Letter"@, "C"@),
                ),
            ),
        ),
    )
}

fn create_partition_exec(order: &str, typ: &str, last: String) -> (r: String)
    ensures
        r@ == create_partition(order@, typ@, last@),
{
    let body = cat2(cat2(leaf_exec("Order", order), leaf_exec("Type", typ)), last);
    elem_exec("CreatePartition", add_action_exec().as_slice(), body.as_str())
}

fn disk_configuration_exec() -> (r: String)
    ensures
        r@ == disk_configuration(),
{
    let create = cat2(
        cat2(
            create_partition_exec("1", "EFI", leaf_exec("Size", "100")),
            create_partition_exec("2", "MSR", leaf_exec("Size", "16")),
        ),
        create_partition_exec("3", "Primary", leaf_exec("Extend", "true")),
    );
    let m1 = cat2(
        cat2(cat2(leaf_exec("Order", "1"), leaf_exec("PartitionID", "1")), leaf_exec("Format", "FAT32")),
        leaf_exec("Label", "System"),
    );
    let m2 = cat2(leaf_exec("Order", "2"), leaf_exec("PartitionID", "2"));
    let m3 = cat2(
        cat2(
            cat2(cat2(leaf_exec("Order", "3"), leaf_exec("PartitionID", "3")), leaf_exec("Format", "NTFS")),
            leaf_exec("Label", "Windows"),
        ),
        leaf_exec("Letter", "C"),
    );
    let modify = cat2(
        cat2(
            elem_exec("ModifyPartition", add_action_exec().as_slice(), m1.as_str()),
            elem_exec("ModifyPartition", add_action_exec().as_slice(), m2.as_str()),
        ),
        elem_exec("ModifyPartition", add_action_exec().as_slice(), m3.as_str()),
    );
    let disk_body = cat2(
        cat2(
            cat2(leaf_exec("DiskID", "0"), leaf_exec("WillWipeDisk", "true")),
            elem_exec("CreatePartitions", no_attrs().as_slice(), create.as_str()),
        ),
        elem_exec("ModifyPartitions", no_attrs().as_slice(), modify.as_str()),
    );
    let body = cat2(
        leaf_exec("WillShowUI", "Never"),
        elem_exec("Disk", add_action_exec().as_slice(), disk_body.as_str()),
    );
    elem_exec("DiskConfiguration", no_attrs().as_slice(), body.as_str())
}

/// Which image of the install image file to install, and where.
pub open spec fn image_install(image: u32) -> Seq<char> {
    elem(
        "ImageInstall"@,
        Seq::empty(),
        elem(
            "OSImage"@,
            Seq::empty(),
            elem(
                "InstallFrom"@,
                Seq::empty(),
                elem(
                    "MetaData"@,
                    add_action(),
                    leaf("Key"@, "/IMAGE/INDEX"@) + leaf("Value"@, decimal(image as nat)),
                ),
            ) + leaf("WillShowUI"@, "Never"@) + elem(
                "InstallTo"@,
                Seq::empty(),
                leaf("DiskID"@, "0"@) + leaf("PartitionID"@, "3"@),
            ),
        ),
    )
}

fn image_install_exec(image: u32) -> (r: String)
    ensures
        r@ == image_install(image),
{
    let index = to_decimal(image as u64);
    let meta = cat2(leaf_exec("Key", "/IMAGE/INDEX"), leaf_exec("Value", index.as_str()));
    let from = elem_exec(
        "InstallFrom",
        no_attrs().as_slice(),
        elem_exec("MetaData", add_action_exec().as_slice(), meta.as_str()).as_str(),
    );
    let to = elem_exec(
        "InstallTo",
        no_attrs().as_slice(),
        cat2(leaf_exec("DiskID", "0"), leaf_exec("PartitionID", "3")).as_str(),
    );
    let os = cat2(cat2(from, leaf_exec("WillShowUI", "Never")), to);
    elem_exec(
        "ImageInstall",
        no_attrs().as_slice(),
        elem_exec("OSImage", no_attrs().as_slice(), os.as_str()).as_str(),
    )
}

/// The setup component of the windowsPE pass.
#[verifier::opaque]
pub open spec fn pe_setup(s: UnattendSettings, image: u32) -> Seq<char> {
    elem(
        "component"@,
        component_ns_attrs("Microsoft-Windows-Setup"@),
        elem(
            "DynamicUpdate"@,
            Seq::empty(),
            leaf(
                "WillShowUI"@,
                if s.dynamic_update_on_error_only {
                    "OnError"@
                } else {
                    "Always"@
                },
            ),
        ) + elem(
            "UserData"@,
            Seq::empty(),
            elem(
                "ProductKey"@,
                Seq::empty(),
                leaf("Key"@, ""@) + leaf(
                    "WillShowUI"@,
                    if s.show_product_key_ui {
                        "Always"@
                    } else {
                        "Never"@
                    },
                ),
            ) + leaf("AcceptEula"@, bool_text(s.accept_eula)),
        ) + disk_configuration() + image_install(image) + leaf(
            "EnableNetwork"@,
            bool_text(!s.disable_network_in_pe),
        ) + leaf("EnableFirewall"@, bool_text(s.enable_firewall_in_pe)),
    )
}

fn pe_setup_exec(s: &UnattendSettings, image: u32) -> (r: String)
    ensures
        r@ == pe_setup(*s, image),
{
    proof {
        reveal(pe_setup);
    }
    let dynamic_update_on_error_only = if s.dynamic_update_on_error_only {
        "OnError"
    } else {
        "Always"
    };
    let key_ui = if s.show_product_key_ui {
        "Always"
    } else {
        "Never"
    };
    let dynamic = elem_exec(
        "DynamicUpdate",
        no_attrs().as_slice(),
        leaf_exec("WillShowUI", dynamic_update_on_error_only).as_str(),
    );
    let key = cat2(leaf_exec("Key", ""), leaf_exec("WillShowUI", key_ui));
    let user = elem_exec(
        "UserData",
        no_attrs().as_slice(),
        cat2(
            elem_exec("ProductKey", no_attrs().as_slice(), key.as_str()),
            leaf_exec("AcceptEula", bool_str(s.accept_eula)),
        ).as_str(),
    );
    let mut body = cat2(dynamic, user);
    body = cat2(body, disk_configuration_exec());
    body = cat2(body, image_install_exec(image));
    body = cat2(body, leaf_exec("EnableNetwork", bool_str(!s.disable_network_in_pe)));
    body = cat2(body, leaf_exec("EnableFirewall", bool_str(s.enable_firewall_in_pe)));
    let attrs = component_ns_attrs_exec("Microsoft-Windows-Setup");
    elem_exec("component", attrs.as_slice(), body.as_str())
}

/// The specialize pass: empty owner and organization.
#[verifier::opaque]
pub open spec fn specialize_pass() -> Seq<char> {
    elem(
        "settings"@,
        seq![("pass"@, "specialize"@)],
        elem(
            "component"@,
            component_attrs("Microsoft-Windows-Shell-Setup"@),
            leaf("RegisteredOwner"@, ""@) + leaf("RegisteredOrganization"@, ""@),
        ),
    )
}

fn specialize_pass_exec() -> (r: String)
    ensures
        r@ == specialize_pass(),
{
    proof {
        reveal(specialize_pass);
    }
    let attrs: Vec<(&str, &str)> = vec![
        ("name", "Microsoft-Windows-Shell-Setup"),
        ("processorArchitecture", "amd64"),
        ("publicKeyToken", "31bf3856ad364e35"),
        ("language", "neutral"),
        ("versionScope", "nonSxS"),
    ];
    assert(attr_views(attrs@) =~= component_attrs("Microsoft-Windows-Shell-Setup"@));
    let comp = elem_exec(
        "component",
        attrs.as_slice(),
        cat2(leaf_exec("RegisteredOwner", ""), leaf_exec("RegisteredOrganization", "")).as_str(),
    );
    let pass: Vec<(&str, &str)> = vec![("pass", "specialize")];
    assert(attr_views(pass@) =~= seq![("pass"@, "specialize"@)]);
    elem_exec("settings", pass.as_slice(), comp.as_str())
}

/// The out-of-box experience settings.
#[verifier::opaque]
pub open spec fn oobe(s: UnattendSettings) -> Seq<char> {
    elem(
        "OOBE"@,
        Seq::empty(),
        leaf("NetworkLocation"@, "Home"@) + leaf("SkipMachineOOBE"@, bool_text(s.skip_machine_oobe))
            + leaf("SkipUserOOBE"@, bool_text(s.skip_user_oobe)) + leaf(
            "HideEULAPage"@,
            bool_text(s.hide_eula_page),
        ) + leaf("HideLocalAccountScreen"@, bool_text(s.hide_local_account_screen)) + leaf(
            "HideOnlineAccountScreens"@,
            bool_text(s.hide_online_account_screens),
        ) + leaf("HideWirelessSetupInOOBE"@, bool_text(s.hide_wireless_setup)) + leaf(
            "ProtectYourPC"@,
            decimal(s.protect_your_pc as nat),
        ),
    )
}

fn oobe_exec(s: &UnattendSettings) -> (r: String)
    ensures
        r@ == oobe(*s),
{
    proof {
        reveal(oobe);
    }
    let mut body = leaf_exec("NetworkLocation", "Home");
    body = cat2(body, leaf_exec("SkipMachineOOBE", bool_str(s.skip_machine_oobe)));
    body = cat2(body, leaf_exec("SkipUserOOBE", bool_str(s.skip_user_oobe)));
    body = cat2(body, leaf_exec("HideEULAPage", bool_str(s.hide_eula_page)));
    body = cat2(body, leaf_exec("HideLocalAccountScreen", bool_str(s.hide_local_account_screen)));
    body = cat2(body, leaf_exec("HideOnlineAccountScreens", bool_str(s.hide_online_account_screens)));
    body = cat2(body, leaf_exec("HideWirelessSetupInOOBE", bool_str(s.hide_wireless_setup)));
    let pc = to_decimal(s.protect_your_pc as u64);
    body = cat2(body, leaf_exec("ProtectYourPC", pc.as_str()));
    elem_exec("OOBE", no_attrs().as_slice(), body.as_str())
}

/// The local administrator account.
#[verifier::opaque]
pub open spec fn user_accounts() -> Seq<char> {
    elem(
        "UserAccounts"@,
        Seq::empty(),
        elem(
            "LocalAccounts"@,
            Seq::empty(),
            elem(
                "LocalAccount"@,
                add_action(),
                elem(
                    "Password"@,
                    Seq::empty(),
                    leaf("Value"@, "password"@) + leaf("PlainText"@, "true"@),
                ) + leaf("Description"@, "Local Administrator Account"@) + leaf(
                    "DisplayName"@,
                    "Admin"@,
                ) + leaf("Group"@, "Administrators"@) + leaf("Name"@, "Admin"@),
            ),
        ),
    )
}

fn user_accounts_exec() -> (r: String)
    ensures
        r@ == user_accounts(),
{
    proof {
        reveal(user_accounts);
    }
    let password = elem_exec(
        "Password",
        no_attrs().as_slice(),
        cat2(leaf_exec("Value", "password"), leaf_exec("PlainText", "true")).as_str(),
    );
    let mut account = cat2(password, leaf_exec("Description", "Local Administrator Account"));
    account = cat2(account, leaf_exec("DisplayName", "Admin"));
    account = cat2(account, leaf_exec("Group", "Administrators"));
    account = cat2(account, leaf_exec("Name", "Admin"));
    let local = elem_exec("LocalAccount", add_action_exec().as_slice(), account.as_str());
    let locals = elem_exec("LocalAccounts", no_attrs().as_slice(), local.as_str());
    elem_exec("UserAccounts", no_attrs().as_slice(), locals.as_str())
}

/// The oobeSystem pass.
pub open spec fn oobe_pass(s: UnattendSettings, lang: Seq<char>) -> Seq<char> {
    elem(
        "settings"@,
        seq![("pass"@, "oobeSystem"@)],
        elem(
            "component"@,
            component_ns_attrs("Microsoft-Windows-Shell-Setup"@),
            oobe(s) + user_accounts(),
        ) + elem(
            "component"@,
            component_ns_attrs("Microsoft-Windows-International-Core"@),
            leaf("InputLocale"@, lang) + leaf("SystemLocale"@, lang) + leaf("UILanguage"@, lang)
                + leaf("UserLocale"@, lang),
        ),
    )
}

fn oobe_pass_exec(s: &UnattendSettings, lang: &str) -> (r: String)
    ensures
        r@ == oobe_pass(*s, lang@),
{
    let shell_attrs = component_ns_attrs_exec("Microsoft-Windows-Shell-Setup");
    let shell = elem_exec(
        "component",
        shell_attrs.as_slice(),
        cat2(oobe_exec(s), user_accounts_exec()).as_str(),
    );
    let mut intl_body = leaf_exec("InputLocale", lang);
    intl_body = cat2(intl_body, leaf_exec("SystemLocale", lang));
    intl_body = cat2(intl_body, leaf_exec("UILanguage", lang));
    intl_body = cat2(intl_body, leaf_exec("UserLocale", lang));
    let intl_attrs = component_ns_attrs_exec("Microsoft-Windows-International-Core");
    let intl = elem_exec("component", intl_attrs.as_slice(), intl_body.as_str());
    let pass: Vec<(&str, &str)> = vec![("pass", "oobeSystem")];
    assert(attr_views(pass@) =~= seq![("pass"@, "oobeSystem"@)]);
    elem_exec("settings", pass.as_slice(), cat2(shell, intl).as_str())
}

/// The XML declaration line.
pub open spec fn xml_declaration() -> Seq<char> {
    "<?xml version=\"1.0\" encoding=\"utf-8\"?>\n"@
}

/// The whole answer file for settings `s`, setup language `lang` and image
/// index `image`.
pub open spec fn unattend_xml(s: UnattendSettings, lang: Seq<char>, image: u32) -> Seq<char> {
    xml_declaration() + elem(
        "unattend"@,
        seq![("xmlns"@, "urn:schemas-microsoft-com:unattend"@)],
        elem(
            "settings"@,
            seq![("pass"@, "windowsPE"@)],
            pe_international(lang) + pe_setup(s, image),
        ) + specialize_pass() + oobe_pass(s, lang),
    ) + seq!['\n']
}

/// Builds the answer file: language `lang` for setup and the installed
/// system, image `image` of the install image, disk 0 wiped and
/// partitioned for UEFI, a local administrator account, and OOBE as `s`
/// says.
pub fn build_xml(s: &UnattendSettings, lang: &str, image: u32) -> (r: String)
    ensures
        r@ == unattend_xml(*s, lang@, image),
{
    let pe_attrs: Vec<(&str, &str)> = vec![("pass", "windowsPE")];
    assert(attr_views(pe_attrs@) =~= seq![("pass"@, "windowsPE"@)]);
    let pe = elem_exec(
        "settings",
        pe_attrs.as_slice(),
        cat2(pe_international_exec(lang), pe_setup_exec(s, image)).as_str(),
    );
    let body = cat2(cat2(pe, specialize_pass_exec()), oobe_pass_exec(s, lang));
    let root_attrs: Vec<(&str, &str)> = vec![("xmlns", "urn:schemas-microsoft-com:unattend")];
    assert(attr_views(root_attrs@) =~= seq![("xmlns"@, "urn:schemas-microsoft-com:unattend"@)]);
    let root = elem_exec("unattend", root_attrs.as_slice(), body.as_str());
    let mut out = String::new();
    out.append("<?xml version=\"1.0\" encoding=\"utf-8\"?>\n");
    out.append(root.as_str());
    push_char(&mut out, '\n');
    out
}

/// A file to write: where, and what.
#[derive(Debug)]
pub struct FileWrite {
    /// The file's path.
    pub path: String,
    /// The file's contents.
    pub contents: String,
}

/// The answer file for the ISO staged at `staging_root`, with settings `s`:
/// `autounattend.xml` at the root of the ISO tree.
pub fn write_autounattend_with(staging_root: &str, lang: &str, image: u32, s: &UnattendSettings) -> (r:
    FileWrite)
    ensures
        r.path@ == join_path(staging_root@, "autounattend.xml"@),
        r.contents@ == unattend_xml(*s, lang@, image),
{
    FileWrite {
        path: join_path_exec(staging_root, "autounattend.xml"),
        contents: build_xml(s, lang, image),
    }
}

/// The answer file for the ISO staged at `staging_root`, with the default
/// settings.
pub fn write_autounattend(staging_root: &str, lang: &str, image: u32) -> (r: FileWrite)
    ensures
        r.path@ == join_path(staging_root@, "autounattend.xml"@),
        r.contents@ == unattend_xml(default_settings(), lang@, image),
{
    let s = UnattendSettings::default();
    write_autounattend_with(staging_root, lang, image, &s)
}

// ---------------------------------------------------------------------
// Laws
// ---------------------------------------------------------------------

/// Reads escaped XML text back: each entity stands for its character.
pub open spec fn xml_unescape(s: Seq<char>) -> Seq<char>
    decreases s.len(),
{
    if s.len() == 0 {
        s
    } else if crate::text::starts_with(s, seq!['&', 'a', 'm', 'p', ';']) {
        seq!['&'] + xml_unescape(s.subrange(5, s.len() as int))
    } else if crate::text::starts_with(s, seq!['&', 'l', 't', ';']) {
        seq!['<'] + xml_unescape(s.subrange(4, s.len() as int))
    } else if crate::text::starts_with(s, seq!['&', 'g', 't', ';']) {
        seq!['>'] + xml_unescape(s.subrange(4, s.len() as int))
    } else if crate::text::starts_with(s, seq!['&', 'q', 'u', 'o', 't', ';']) {
        seq!['"'] + xml_unescape(s.subrange(6, s.len() as int))
    } else if crate::text::starts_with(s, seq!['&', 'a', 'p', 'o', 's', ';']) {
        seq!['\''] + xml_unescape(s.subrange(6, s.len() as int))
    } else {
        seq![s[0]] + xml_unescape(s.subrange(1, s.len() as int))
    }
}

/// Text written into the answer file reads back unchanged, whatever
/// characters it holds (a language tag cannot alter the document).
pub proof fn law_xml_text_reads_back(t: Seq<char>)
    ensures
        xml_unescape(xml_escape(t)) == t,
    decreases t.len(),
{
    if t.len() > 0 {
        let c = t[0];
        let rest = t.subrange(1, t.len() as int);
        let e = xml_escape(t);
        let r = xml_escape(rest);
        let ec = xml_escape_char(c);
        law_xml_text_reads_back(rest);
        assert(e == ec + r);
        assert(e.subrange(0, ec.len() as int) =~= ec);
        assert(e.subrange(ec.len() as int, e.len() as int) =~= r);
        assert(t =~= seq![c] + rest);
        if c != '&' && c != '<' && c != '>' && c != '"' && c != '\'' {
            assert(e[0] == c);
        }
    }
}

/// Escaped text holds no character that could end text or a quoted
/// attribute value: no `<`, `>`, `"` or `'`.
pub proof fn law_xml_escape_no_markup(t: Seq<char>)
    ensures
        forall|i: int|
            0 <= i < xml_escape(t).len() ==> {
                let c = #[trigger] xml_escape(t)[i];
                c != '<' && c != '>' && c != '"' && c != '\''
            },
    decreases t.len(),
{
    if t.len() > 0 {
        let rest = t.subrange(1, t.len() as int);
        law_xml_escape_no_markup(rest);
        let ec = xml_escape_char(t[0]);
        let e = xml_escape(t);
        assert forall|i: int| 0 <= i < e.len() implies {
            let c = #[trigger] e[i];
            c != '<' && c != '>' && c != '"' && c != '\''
        } by {
            if i >= ec.len() {
                assert(e[i] == xml_escape(rest)[i - ec.len()]);
            }
        }
    }
}

/// A start tag without attributes.
pub open spec fn open_tag(name: Seq<char>) -> Seq<char> {
    seq!['<'] + name + seq!['>']
}

/// An end tag.
pub open spec fn close_tag(name: Seq<char>) -> Seq<char> {
    seq!['<', '/'] + name + seq!['>']
}

/// A start tag with attributes.
pub open spec fn start_tag(name: Seq<char>, attrs: Seq<(Seq<char>, Seq<char>)>) -> Seq<char> {
    seq!['<'] + name + attrs_text(attrs) + seq!['>']
}

/// The pieces of a text joined with `t` between each two of them.
pub open spec fn fill(pieces: Seq<Seq<char>>, t: Seq<char>) -> Seq<char>
    decreases pieces.len(),
{
    if pieces.len() == 0 {
        Seq::empty()
    } else if pieces.len() == 1 {
        pieces[0]
    } else {
        fill(pieces.drop_last(), t) + t + pieces.last()
    }
}

/// The elements of the answer file whose text is the language, in the
/// order they appear: those of the windowsPE language component, then
/// those of the oobeSystem one.
pub open spec fn locale_elements() -> Seq<Seq<char>> {
    seq![
        "UILanguage"@,
        "InputLocale"@,
        "SystemLocale"@,
        "UILanguage"@,
        "UserLocale"@,
        "InputLocale"@,
        "SystemLocale"@,
        "UILanguage"@,
        "UserLocale"@,
    ]
}

/// The answer file around the language: ten pieces, which depend on the
/// settings and the image only, between which the language stands.
pub open spec fn locale_frame(s: UnattendSettings, image: u32) -> Seq<Seq<char>> {
    seq![
        xml_declaration() + start_tag("unattend"@, seq![("xmlns"@, "urn:schemas-microsoft-com:unattend"@)])
            + start_tag("settings"@, seq![("pass"@, "windowsPE"@)]) + start_tag(
            "component"@,
            component_ns_attrs("Microsoft-Windows-International-Core-WinPE"@),
        ) + open_tag("SetupUILanguage"@) + open_tag("UILanguage"@),
        close_tag("UILanguage"@) + leaf("WillShowUI"@, "Never"@) + close_tag("SetupUILanguage"@)
            + open_tag("InputLocale"@),
        close_tag("InputLocale"@) + open_tag("SystemLocale"@),
        close_tag("SystemLocale"@) + open_tag("UILanguage"@),
        close_tag("UILanguage"@) + open_tag("UserLocale"@),
        close_tag("UserLocale"@) + close_tag("component"@) + pe_setup(s, image) + close_tag(
            "settings"@,
        ) + specialize_pass() + start_tag("settings"@, seq![("pass"@, "oobeSystem"@)]) + elem(
            "component"@,
            component_ns_attrs("Microsoft-Windows-Shell-Setup"@),
            oobe(s) + user_accounts(),
        ) + start_tag("component"@, component_ns_attrs("Microsoft-Windows-International-Core"@))
            + open_tag("InputLocale"@),
        close_tag("InputLocale"@) + open_tag("SystemLocale"@),
        close_tag("SystemLocale"@) + open_tag("UILanguage"@),
        close_tag("UILanguage"@) + open_tag("UserLocale"@),
        close_tag("UserLocale"@) + close_tag("component"@) + close_tag("settings"@) + close_tag(
            "unattend"@,
        ) + seq!['\n'],
    ]
}

proof fn lemma_leaf_parts(name: Seq<char>, text: Seq<char>)
    ensures
        leaf(name, text) == open_tag(name) + xml_escape(text) + close_tag(name),
{
    assert(attrs_text(Seq::<(Seq<char>, Seq<char>)>::empty()) =~= Seq::<char>::empty());
    assert(leaf(name, text) =~= open_tag(name) + xml_escape(text) + close_tag(name));
}

proof fn lemma_elem_parts(name: Seq<char>, attrs: Seq<(Seq<char>, Seq<char>)>, body: Seq<char>)
    ensures
        elem(name, attrs, body) == start_tag(name, attrs) + body + close_tag(name),
        start_tag(name, Seq::empty()) == open_tag(name),
{
    assert(attrs_text(Seq::<(Seq<char>, Seq<char>)>::empty()) =~= Seq::<char>::empty());
    assert(start_tag(name, Seq::empty()) =~= open_tag(name));
    assert(elem(name, attrs, body) =~= start_tag(name, attrs) + body + close_tag(name));
}

proof fn lemma_fill_push(p: Seq<Seq<char>>, x: Seq<char>, t: Seq<char>)
    requires
        p.len() >= 1,
    ensures
        fill(p.push(x), t) == fill(p, t) + t + x,
{
    assert(p.push(x).drop_last() =~= p);
}

proof fn lemma_fill_ten(fr: Seq<Seq<char>>, t: Seq<char>)
    requires
        fr.len() == 10,
    ensures
        fill(fr, t) == fr[0] + t + fr[1] + t + fr[2] + t + fr[3] + t + fr[4] + t + fr[5] + t
            + fr[6] + t + fr[7] + t + fr[8] + t + fr[9],
{
    assert(fill(fr.subrange(0, 1), t) == fr[0]);
    lemma_fill_push(fr.subrange(0, 1), fr[1], t);
    assert(fr.subrange(0, 1).push(fr[1]) =~= fr.subrange(0, 2));
    lemma_fill_push(fr.subrange(0, 2), fr[2], t);
    assert(fr.subrange(0, 2).push(fr[2]) =~= fr.subrange(0, 3));
    lemma_fill_push(fr.subrange(0, 3), fr[3], t);
    assert(fr.subrange(0, 3).push(fr[3]) =~= fr.subrange(0, 4));
    lemma_fill_push(fr.subrange(0, 4), fr[4], t);
    assert(fr.subrange(0, 4).push(fr[4]) =~= fr.subrange(0, 5));
    lemma_fill_push(fr.subrange(0, 5), fr[5], t);
    assert(fr.subrange(0, 5).push(fr[5]) =~= fr.subrange(0, 6));
    lemma_fill_push(fr.subrange(0, 6), fr[6], t);
    assert(fr.subrange(0, 6).push(fr[6]) =~= fr.subrange(0, 7));
    lemma_fill_push(fr.subrange(0, 7), fr[7], t);
    assert(fr.subrange(0, 7).push(fr[7]) =~= fr.subrange(0, 8));
    lemma_fill_push(fr.subrange(0, 8), fr[8], t);
    assert(fr.subrange(0, 8).push(fr[8]) =~= fr.subrange(0, 9));
    lemma_fill_push(fr.subrange(0, 9), fr[9], t);
    assert(fr.subrange(0, 9).push(fr[9]) =~= fr.subrange(0, 10));
    assert(fr.subrange(0, 10) =~= fr);
}

/// Four leaves regrouped around their texts.
proof fn lemma_regroup_leaves(
    oil: Seq<char>, cil: Seq<char>, osl: Seq<char>, csl: Seq<char>, oui: Seq<char>,
    cui: Seq<char>, oul: Seq<char>, cul: Seq<char>, t: Seq<char>,
)
    ensures
        (oil + t + cil) + (osl + t + csl) + (oui + t + cui) + (oul + t + cul) == oil + t + (cil
            + osl) + t + (csl + oui) + t + (cui + oul) + t + cul,
{
    assert((oil + t + cil) + (osl + t + csl) + (oui + t + cui) + (oul + t + cul) =~= oil + t + (cil
        + osl) + t + (csl + oui) + t + (cui + oul) + t + cul);
}

/// A sum of five parts, the last four grouped.
proof fn lemma_group_tail(e: Seq<char>, a: Seq<char>, b: Seq<char>, c: Seq<char>, d: Seq<char>)
    ensures
        e + a + b + c + d == e + (a + b + c + d),
{
    assert(e + a + b + c + d =~= e + (a + b + c + d));
}

/// The windowsPE language component body regrouped around its texts.
proof fn lemma_regroup_pe(
    osui: Seq<char>, oui: Seq<char>, cui: Seq<char>, w: Seq<char>, csui: Seq<char>,
    ll: Seq<char>, oil: Seq<char>, g2: Seq<char>, g3: Seq<char>, g4: Seq<char>, cul: Seq<char>,
    t: Seq<char>,
)
    requires
        ll == oil + t + g2 + t + g3 + t + g4 + t + cul,
    ensures
        (osui + ((oui + t + cui) + w) + csui) + ll == (osui + oui) + t + (cui + w + csui + oil) + t
            + g2 + t + g3 + t + g4 + t + cul,
{
    assert((osui + ((oui + t + cui) + w) + csui) + (oil + t + g2 + t + g3 + t + g4 + t + cul) =~= (
    osui + oui) + t + (cui + w + csui + oil) + t + g2 + t + g3 + t + g4 + t + cul);
}

proof fn lemma_gaps4(x: Seq<char>, t: Seq<char>, g1: Seq<char>, g2: Seq<char>, g3: Seq<char>, g4: Seq<char>, y: Seq<char>)
    ensures
        x + t + g1 + t + g2 + t + g3 + t + g4 + t + y == x + (t + g1 + t + g2 + t + g3 + t + g4 + t)
            + y,
{
    assert(x + t + g1 + t + g2 + t + g3 + t + g4 + t + y =~= x + (t + g1 + t + g2 + t + g3 + t + g4
        + t) + y);
}

proof fn lemma_gaps3(x: Seq<char>, t: Seq<char>, g2: Seq<char>, g3: Seq<char>, g4: Seq<char>, y: Seq<char>)
    ensures
        x + t + g2 + t + g3 + t + g4 + t + y == x + (t + g2 + t + g3 + t + g4 + t) + y,
{
    assert(x + t + g2 + t + g3 + t + g4 + t + y =~= x + (t + g2 + t + g3 + t + g4 + t) + y);
}

proof fn lemma_head(
    decl: Seq<char>, stu: Seq<char>, sts: Seq<char>, stc: Seq<char>, osui: Seq<char>,
    oui: Seq<char>, j: Seq<char>, cul: Seq<char>, ccomp: Seq<char>, ps: Seq<char>, cset: Seq<char>,
)
    ensures
        decl + (stu + (sts + ((stc + ((osui + oui) + j + cul) + ccomp) + ps) + cset)) == (decl + stu
            + sts + stc + osui + oui) + j + (cul + ccomp + ps + cset),
{
    assert(decl + (stu + (sts + ((stc + ((osui + oui) + j + cul) + ccomp) + ps) + cset)) =~= (decl
        + stu + sts + stc + osui + oui) + j + (cul + ccomp + ps + cset));
}

proof fn lemma_tail(
    sp: Seq<char>, sto: Seq<char>, shell: Seq<char>, stci: Seq<char>, oil: Seq<char>, k: Seq<char>,
    cul: Seq<char>, ccomp: Seq<char>, cset: Seq<char>, cun: Seq<char>, nl: Seq<char>,
)
    ensures
        sp + (sto + (shell + (stci + (oil + k + cul) + ccomp)) + cset) + cun + nl == (sp + sto + shell
            + stci + oil) + k + (cul + ccomp + cset + cun + nl),
{
    assert(sp + (sto + (shell + (stci + (oil + k + cul) + ccomp)) + cset) + cun + nl =~= (sp + sto
        + shell + stci + oil) + k + (cul + ccomp + cset + cun + nl));
}

proof fn lemma_split(decl: Seq<char>, stu: Seq<char>, x: Seq<char>, sp: Seq<char>, q: Seq<char>, cun: Seq<char>, nl: Seq<char>)
    ensures
        decl + (stu + (x + sp + q) + cun) + nl == (decl + (stu + x)) + (sp + q + cun + nl),
{
    assert(decl + (stu + (x + sp + q) + cun) + nl =~= (decl + (stu + x)) + (sp + q + cun + nl));
}

proof fn lemma_merge_middle(f0: Seq<char>, j: Seq<char>, a: Seq<char>, b: Seq<char>, k: Seq<char>, f9: Seq<char>)
    ensures
        (f0 + j + a) + (b + k + f9) == f0 + j + (a + b) + k + f9,
{
    assert((f0 + j + a) + (b + k + f9) =~= f0 + j + (a + b) + k + f9);
}

proof fn lemma_nine(
    cul: Seq<char>, ccomp: Seq<char>, ps: Seq<char>, cset: Seq<char>, sp: Seq<char>,
    sto: Seq<char>, shell: Seq<char>, stci: Seq<char>, oil: Seq<char>,
)
    ensures
        (cul + ccomp + ps + cset) + (sp + sto + shell + stci + oil) == cul + ccomp + ps + cset + sp
            + sto + shell + stci + oil,
{
    assert((cul + ccomp + ps + cset) + (sp + sto + shell + stci + oil) =~= cul + ccomp + ps + cset
        + sp + sto + shell + stci + oil);
}

/// The answer file regrouped around the nine language texts.
proof fn lemma_regroup(
    decl: Seq<char>, stu: Seq<char>, sts: Seq<char>, stc: Seq<char>, osui: Seq<char>,
    oui: Seq<char>, g1: Seq<char>, g2: Seq<char>, g3: Seq<char>, g4: Seq<char>, cul: Seq<char>,
    ccomp: Seq<char>, ps: Seq<char>, cset: Seq<char>, sp: Seq<char>, sto: Seq<char>,
    shell: Seq<char>, stci: Seq<char>, oil: Seq<char>, cun: Seq<char>, nl: Seq<char>,
    pe_body: Seq<char>, ll: Seq<char>, t: Seq<char>,
)
    requires
        pe_body == (osui + oui) + t + g1 + t + g2 + t + g3 + t + g4 + t + cul,
        ll == oil + t + g2 + t + g3 + t + g4 + t + cul,
    ensures
        decl + (stu + ((sts + ((stc + pe_body + ccomp) + ps) + cset) + sp + (sto + (shell + (stci
            + ll + ccomp)) + cset)) + cun) + nl == (decl + stu + sts + stc + osui + oui) + t + g1
            + t + g2 + t + g3 + t + g4 + t + (cul + ccomp + ps + cset + sp + sto + shell + stci
            + oil) + t + g2 + t + g3 + t + g4 + t + (cul + ccomp + cset + cun + nl),
{
    let f0 = decl + stu + sts + stc + osui + oui;
    let f5 = cul + ccomp + ps + cset + sp + sto + shell + stci + oil;
    let f9 = cul + ccomp + cset + cun + nl;
    let j = t + g1 + t + g2 + t + g3 + t + g4 + t;
    let k = t + g2 + t + g3 + t + g4 + t;
    lemma_gaps4(osui + oui, t, g1, g2, g3, g4, cul);
    lemma_gaps3(oil, t, g2, g3, g4, cul);
    let a = cul + ccomp + ps + cset;
    let b = sp + sto + shell + stci + oil;
    lemma_head(decl, stu, sts, stc, osui, oui, j, cul, ccomp, ps, cset);
    lemma_tail(sp, sto, shell, stci, oil, k, cul, ccomp, cset, cun, nl);
    let p = stc + pe_body + ccomp;
    let x = sts + (p + ps) + cset;
    let q = sto + (shell + (stci + ll + ccomp)) + cset;
    lemma_split(decl, stu, x, sp, q, cun, nl);
    lemma_merge_middle(f0, j, a, b, k, f9);
    lemma_nine(cul, ccomp, ps, cset, sp, sto, shell, stci, oil);
    lemma_gaps4(f0, t, g1, g2, g3, g4, f5);
    lemma_gaps3(f0 + t + g1 + t + g2 + t + g3 + t + g4 + t + f5, t, g2, g3, g4, f9);
}

proof fn lemma_ends_with_tail(a: Seq<char>, b: Seq<char>)
    ensures
        crate::text::ends_with(a + b, b),
{
    assert((a + b).subrange(a.len() as int, (a + b).len() as int) =~= b);
}

proof fn lemma_starts_with_head(a: Seq<char>, b: Seq<char>)
    ensures
        crate::text::starts_with(a + b, a),
{
    assert((a + b).subrange(0, a.len() as int) =~= a);
}

proof fn lemma_starts4(c: Seq<char>, a: Seq<char>, b: Seq<char>, d: Seq<char>)
    ensures
        crate::text::starts_with(c + a + b + d, c),
{
    assert(c + a + b + d =~= c + (a + b + d));
    lemma_starts_with_head(c, a + b + d);
}

proof fn lemma_starts5(c: Seq<char>, a: Seq<char>, b: Seq<char>, d: Seq<char>, e: Seq<char>)
    ensures
        crate::text::starts_with(c + a + b + d + e, c),
{
    assert(c + a + b + d + e =~= c + (a + b + d + e));
    lemma_starts_with_head(c, a + b + d + e);
}

proof fn lemma_starts9(
    c: Seq<char>, a: Seq<char>, b: Seq<char>, d: Seq<char>, e: Seq<char>, f: Seq<char>,
    g: Seq<char>, h: Seq<char>, i: Seq<char>,
)
    ensures
        crate::text::starts_with(c + a + b + d + e + f + g + h + i, c),
{
    assert(c + a + b + d + e + f + g + h + i =~= c + (a + b + d + e + f + g + h + i));
    lemma_starts_with_head(c, a + b + d + e + f + g + h + i);
}

/// Each gap of the frame lies between the start and end tag of its
/// locale element.
proof fn lemma_frame_tags(s: UnattendSettings, image: u32)
    ensures
        forall|k: int|
            0 <= k < locale_elements().len() ==> crate::text::ends_with(
                #[trigger] locale_frame(s, image)[k],
                open_tag(locale_elements()[k]),
            ) && crate::text::starts_with(
                locale_frame(s, image)[k + 1],
                close_tag(locale_elements()[k]),
            ),
{
    let fr = locale_frame(s, image);
    let ui = "UILanguage"@;
    let il = "InputLocale"@;
    let sl = "SystemLocale"@;
    let ul = "UserLocale"@;
    lemma_ends_with_tail(
        xml_declaration() + start_tag("unattend"@, seq![("xmlns"@, "urn:schemas-microsoft-com:unattend"@)])
            + start_tag("settings"@, seq![("pass"@, "windowsPE"@)]) + start_tag(
            "component"@,
            component_ns_attrs("Microsoft-Windows-International-Core-WinPE"@),
        ) + open_tag("SetupUILanguage"@),
        open_tag(ui),
    );
    lemma_starts4(close_tag(ui), leaf("WillShowUI"@, "Never"@), close_tag("SetupUILanguage"@), open_tag(il));
    lemma_ends_with_tail(close_tag(ui) + leaf("WillShowUI"@, "Never"@) + close_tag("SetupUILanguage"@), open_tag(il));
    lemma_starts_with_head(close_tag(il), open_tag(sl));
    lemma_ends_with_tail(close_tag(il), open_tag(sl));
    lemma_starts_with_head(close_tag(sl), open_tag(ui));
    lemma_ends_with_tail(close_tag(sl), open_tag(ui));
    lemma_starts_with_head(close_tag(ui), open_tag(ul));
    lemma_ends_with_tail(close_tag(ui), open_tag(ul));
    let shell = elem(
        "component"@,
        component_ns_attrs("Microsoft-Windows-Shell-Setup"@),
        oobe(s) + user_accounts(),
    );
    let stci = start_tag("component"@, component_ns_attrs("Microsoft-Windows-International-Core"@));
    let sto = start_tag("settings"@, seq![("pass"@, "oobeSystem"@)]);
    lemma_starts9(close_tag(ul), close_tag("component"@), pe_setup(s, image), close_tag("settings"@), specialize_pass(), sto, shell, stci, open_tag(il));
    lemma_ends_with_tail(close_tag(ul) + close_tag("component"@) + pe_setup(s, image) + close_tag("settings"@) + specialize_pass() + sto + shell + stci, open_tag(il));
    lemma_starts5(close_tag(ul), close_tag("component"@), close_tag("settings"@), close_tag("unattend"@), seq!['\n']);
    assert forall|k: int| 0 <= k < locale_elements().len() implies crate::text::ends_with(
        #[trigger] fr[k],
        open_tag(locale_elements()[k]),
    ) && crate::text::starts_with(fr[k + 1], close_tag(locale_elements()[k])) by {
        assert(locale_elements()[k] == if k == 0 || k == 3 || k == 7 { ui } else if k == 1 || k == 5 { il } else if k == 2 || k == 6 { sl } else { ul });
    }
}

/// The language reaches the answer file only as the text of the nine
/// locale elements: the file is a frame that depends on the settings and
/// the image alone, with the escaped language between its pieces, and
/// each gap lies between the start and end tag of a locale element. So
/// the answer files for two languages differ only in those nine texts.
#[verifier::spinoff_prover]
#[verifier::rlimit(60)]
pub proof fn law_language_only_in_locale_elements(s: UnattendSettings, lang: Seq<char>, image: u32)
    ensures
        locale_frame(s, image).len() == locale_elements().len() + 1,
        unattend_xml(s, lang, image) == fill(locale_frame(s, image), xml_escape(lang)),
        forall|k: int|
            0 <= k < locale_elements().len() ==> crate::text::ends_with(
                #[trigger] locale_frame(s, image)[k],
                open_tag(locale_elements()[k]),
            ) && crate::text::starts_with(
                locale_frame(s, image)[k + 1],
                close_tag(locale_elements()[k]),
            ),
{
    let t = xml_escape(lang);
    let ui = "UILanguage"@;
    let il = "InputLocale"@;
    let sl = "SystemLocale"@;
    let ul = "UserLocale"@;
    lemma_leaf_parts(ui, lang);
    lemma_leaf_parts(il, lang);
    lemma_leaf_parts(sl, lang);
    lemma_leaf_parts(ul, lang);
    let uiw = leaf(ui, lang) + leaf("WillShowUI"@, "Never"@);
    lemma_elem_parts("SetupUILanguage"@, Seq::empty(), uiw);
    let intl_pe = component_ns_attrs("Microsoft-Windows-International-Core-WinPE"@);
    let pe_body = elem("SetupUILanguage"@, Seq::empty(), uiw) + leaf(il, lang) + leaf(sl, lang)
        + leaf(ui, lang) + leaf(ul, lang);
    lemma_elem_parts("component"@, intl_pe, pe_body);
    let intl = component_ns_attrs("Microsoft-Windows-International-Core"@);
    let ll = leaf(il, lang) + leaf(sl, lang) + leaf(ui, lang) + leaf(ul, lang);
    lemma_elem_parts("component"@, intl, ll);
    let shell = elem(
        "component"@,
        component_ns_attrs("Microsoft-Windows-Shell-Setup"@),
        oobe(s) + user_accounts(),
    );
    let oobe_body = shell + elem("component"@, intl, ll);
    lemma_elem_parts("settings"@, seq![("pass"@, "oobeSystem"@)], oobe_body);
    let pe_pass_body = pe_international(lang) + pe_setup(s, image);
    lemma_elem_parts("settings"@, seq![("pass"@, "windowsPE"@)], pe_pass_body);
    let root_body = elem("settings"@, seq![("pass"@, "windowsPE"@)], pe_pass_body)
        + specialize_pass() + oobe_pass(s, lang);
    lemma_elem_parts("unattend"@, seq![("xmlns"@, "urn:schemas-microsoft-com:unattend"@)], root_body);
    // The locale leaves, and the language component bodies, around their texts.
    lemma_regroup_leaves(
        open_tag(il), close_tag(il), open_tag(sl), close_tag(sl), open_tag(ui), close_tag(ui),
        open_tag(ul), close_tag(ul), t,
    );
    let g2 = close_tag(il) + open_tag(sl);
    let g3 = close_tag(sl) + open_tag(ui);
    let g4 = close_tag(ui) + open_tag(ul);
    let e = elem("SetupUILanguage"@, Seq::empty(), uiw);
    lemma_group_tail(e, leaf(il, lang), leaf(sl, lang), leaf(ui, lang), leaf(ul, lang));
    lemma_regroup_pe(
        open_tag("SetupUILanguage"@), open_tag(ui), close_tag(ui), leaf("WillShowUI"@, "Never"@),
        close_tag("SetupUILanguage"@), ll, open_tag(il), g2, g3, g4, close_tag(ul), t,
    );
    lemma_regroup(
        xml_declaration(),
        start_tag("unattend"@, seq![("xmlns"@, "urn:schemas-microsoft-com:unattend"@)]),
        start_tag("settings"@, seq![("pass"@, "windowsPE"@)]),
        start_tag("component"@, intl_pe),
        open_tag("SetupUILanguage"@),
        open_tag(ui),
        close_tag(ui) + leaf("WillShowUI"@, "Never"@) + close_tag("SetupUILanguage"@) + open_tag(il),
        g2,
        g3,
        g4,
        close_tag(ul),
        close_tag("component"@),
        pe_setup(s, image),
        close_tag("settings"@),
        specialize_pass(),
        start_tag("settings"@, seq![("pass"@, "oobeSystem"@)]),
        shell,
        start_tag("component"@, intl),
        open_tag(il),
        close_tag("unattend"@),
        seq!['\n'],
        pe_body,
        ll,
        t,
    );
    lemma_fill_ten(locale_frame(s, image), t);
    lemma_frame_tags(s, image);
}


// ---------------------------------------------------------------------
// What the settings put into the answer file
// ---------------------------------------------------------------------

/// An element contains its content.
proof fn lemma_elem_contains_body(name: Seq<char>, attrs: Seq<(Seq<char>, Seq<char>)>, body: Seq<char>)
    ensures
        contains(elem(name, attrs, body), body),
{
    lemma_elem_parts(name, attrs, body);
    lemma_contains_prefix(start_tag(name, attrs) + body, close_tag(name));
    lemma_contains_suffix(start_tag(name, attrs), body);
    lemma_contains_trans(elem(name, attrs, body), start_tag(name, attrs) + body, body);
}

/// Part `b` of `a + b + c`.
proof fn lemma_contains_middle(a: Seq<char>, b: Seq<char>, c: Seq<char>)
    ensures
        contains(a + b + c, b),
{
    lemma_contains_prefix(a + b, c);
    lemma_contains_suffix(a, b);
    lemma_contains_trans(a + b + c, a + b, b);
}

/// Each of eight parts written one after another.
proof fn lemma_contains_each8(
    l1: Seq<char>, l2: Seq<char>, l3: Seq<char>, l4: Seq<char>, l5: Seq<char>, l6: Seq<char>,
    l7: Seq<char>, l8: Seq<char>,
)
    ensures
        contains(l1 + l2 + l3 + l4 + l5 + l6 + l7 + l8, l2),
        contains(l1 + l2 + l3 + l4 + l5 + l6 + l7 + l8, l3),
        contains(l1 + l2 + l3 + l4 + l5 + l6 + l7 + l8, l4),
        contains(l1 + l2 + l3 + l4 + l5 + l6 + l7 + l8, l5),
        contains(l1 + l2 + l3 + l4 + l5 + l6 + l7 + l8, l6),
        contains(l1 + l2 + l3 + l4 + l5 + l6 + l7 + l8, l7),
        contains(l1 + l2 + l3 + l4 + l5 + l6 + l7 + l8, l8),
{
    let p2 = l1 + l2;
    let p3 = p2 + l3;
    let p4 = p3 + l4;
    let p5 = p4 + l5;
    let p6 = p5 + l6;
    let p7 = p6 + l7;
    let p8 = p7 + l8;
    lemma_contains_prefix(p7, l8);
    lemma_contains_prefix(p6, l7);
    lemma_contains_prefix(p5, l6);
    lemma_contains_prefix(p4, l5);
    lemma_contains_prefix(p3, l4);
    lemma_contains_prefix(p2, l3);
    lemma_contains_trans(p8, p7, p6);
    lemma_contains_trans(p8, p6, p5);
    lemma_contains_trans(p8, p5, p4);
    lemma_contains_trans(p8, p4, p3);
    lemma_contains_trans(p8, p3, p2);
    lemma_contains_suffix(l1, l2);
    lemma_contains_suffix(p2, l3);
    lemma_contains_suffix(p3, l4);
    lemma_contains_suffix(p4, l5);
    lemma_contains_suffix(p5, l6);
    lemma_contains_suffix(p6, l7);
    lemma_contains_suffix(p7, l8);
    lemma_contains_trans(p8, p2, l2);
    lemma_contains_trans(p8, p3, l3);
    lemma_contains_trans(p8, p4, l4);
    lemma_contains_trans(p8, p5, l5);
    lemma_contains_trans(p8, p6, l6);
    lemma_contains_trans(p8, p7, l7);
}

/// Each of six parts written one after another.
proof fn lemma_contains_each6(
    l1: Seq<char>, l2: Seq<char>, l3: Seq<char>, l4: Seq<char>, l5: Seq<char>, l6: Seq<char>,
)
    ensures
        contains(l1 + l2 + l3 + l4 + l5 + l6, l1),
        contains(l1 + l2 + l3 + l4 + l5 + l6, l2),
        contains(l1 + l2 + l3 + l4 + l5 + l6, l4),
        contains(l1 + l2 + l3 + l4 + l5 + l6, l5),
        contains(l1 + l2 + l3 + l4 + l5 + l6, l6),
{
    let p2 = l1 + l2;
    let p3 = p2 + l3;
    let p4 = p3 + l4;
    let p5 = p4 + l5;
    let p6 = p5 + l6;
    lemma_contains_prefix(p5, l6);
    lemma_contains_prefix(p4, l5);
    lemma_contains_prefix(p3, l4);
    lemma_contains_prefix(p2, l3);
    lemma_contains_prefix(l1, l2);
    lemma_contains_trans(p6, p5, p4);
    lemma_contains_trans(p6, p4, p3);
    lemma_contains_trans(p6, p3, p2);
    lemma_contains_trans(p6, p2, l1);
    lemma_contains_suffix(l1, l2);
    lemma_contains_suffix(p3, l4);
    lemma_contains_suffix(p4, l5);
    lemma_contains_suffix(p5, l6);
    lemma_contains_trans(p6, p2, l2);
    lemma_contains_trans(p6, p4, l4);
    lemma_contains_trans(p6, p5, l5);
}

/// The answer file contains the OOBE element and the windowsPE setup
/// component.
proof fn lemma_file_holds_sections(s: UnattendSettings, lang: Seq<char>, image: u32)
    ensures
        contains(unattend_xml(s, lang, image), oobe(s)),
        contains(unattend_xml(s, lang, image), pe_setup(s, image)),
{
    let x = unattend_xml(s, lang, image);
    let pe = elem("settings"@, seq![("pass"@, "windowsPE"@)], pe_international(lang) + pe_setup(s, image));
    let root = pe + specialize_pass() + oobe_pass(s, lang);
    let top = elem("unattend"@, seq![("xmlns"@, "urn:schemas-microsoft-com:unattend"@)], root);
    lemma_contains_middle(xml_declaration(), top, seq!['\n']);
    lemma_elem_contains_body("unattend"@, seq![("xmlns"@, "urn:schemas-microsoft-com:unattend"@)], root);
    lemma_contains_trans(x, top, root);
    // oobeSystem
    lemma_contains_suffix(pe + specialize_pass(), oobe_pass(s, lang));
    lemma_contains_trans(x, root, oobe_pass(s, lang));
    let intl = elem(
        "component"@,
        component_ns_attrs("Microsoft-Windows-International-Core"@),
        leaf("InputLocale"@, lang) + leaf("SystemLocale"@, lang) + leaf("UILanguage"@, lang)
            + leaf("UserLocale"@, lang),
    );
    let shell = elem(
        "component"@,
        component_ns_attrs("Microsoft-Windows-Shell-Setup"@),
        oobe(s) + user_accounts(),
    );
    lemma_elem_contains_body("settings"@, seq![("pass"@, "oobeSystem"@)], shell + intl);
    lemma_contains_trans(x, oobe_pass(s, lang), shell + intl);
    lemma_contains_prefix(shell, intl);
    lemma_contains_trans(x, shell + intl, shell);
    lemma_elem_contains_body(
        "component"@,
        component_ns_attrs("Microsoft-Windows-Shell-Setup"@),
        oobe(s) + user_accounts(),
    );
    lemma_contains_trans(x, shell, oobe(s) + user_accounts());
    lemma_contains_prefix(oobe(s), user_accounts());
    lemma_contains_trans(x, oobe(s) + user_accounts(), oobe(s));
    // windowsPE
    lemma_contains_prefix(pe + specialize_pass(), oobe_pass(s, lang));
    lemma_contains_prefix(pe, specialize_pass());
    lemma_contains_trans(x, root, pe + specialize_pass());
    lemma_contains_trans(x, pe + specialize_pass(), pe);
    lemma_elem_contains_body(
        "settings"@,
        seq![("pass"@, "windowsPE"@)],
        pe_international(lang) + pe_setup(s, image),
    );
    lemma_contains_trans(x, pe, pe_international(lang) + pe_setup(s, image));
    lemma_contains_suffix(pe_international(lang), pe_setup(s, image));
    lemma_contains_trans(x, pe_international(lang) + pe_setup(s, image), pe_setup(s, image));
}

/// Every choice of the settings, and the image index, reaches the answer
/// file as the text of its element: whatever the settings, language and
/// image, the file holds each OOBE element with the text of its own
/// setting, the EULA, network and firewall elements of the windowsPE pass,
/// the dynamic update and product key prompts, and the image index.
#[verifier::spinoff_prover]
#[verifier::rlimit(40)]
pub proof fn law_settings_reach_answer_file(s: UnattendSettings, lang: Seq<char>, image: u32)
    ensures
        contains(unattend_xml(s, lang, image), leaf("SkipMachineOOBE"@, bool_text(s.skip_machine_oobe))),
        contains(unattend_xml(s, lang, image), leaf("SkipUserOOBE"@, bool_text(s.skip_user_oobe))),
        contains(unattend_xml(s, lang, image), leaf("HideEULAPage"@, bool_text(s.hide_eula_page))),
        contains(
            unattend_xml(s, lang, image),
            leaf("HideLocalAccountScreen"@, bool_text(s.hide_local_account_screen)),
        ),
        contains(
            unattend_xml(s, lang, image),
            leaf("HideOnlineAccountScreens"@, bool_text(s.hide_online_account_screens)),
        ),
        contains(
            unattend_xml(s, lang, image),
            leaf("HideWirelessSetupInOOBE"@, bool_text(s.hide_wireless_setup)),
        ),
        contains(
            unattend_xml(s, lang, image),
            leaf("ProtectYourPC"@, decimal(s.protect_your_pc as nat)),
        ),
        contains(unattend_xml(s, lang, image), leaf("AcceptEula"@, bool_text(s.accept_eula))),
        contains(
            unattend_xml(s, lang, image),
            leaf("EnableNetwork"@, bool_text(!s.disable_network_in_pe)),
        ),
        contains(
            unattend_xml(s, lang, image),
            leaf("EnableFirewall"@, bool_text(s.enable_firewall_in_pe)),
        ),
        contains(
            unattend_xml(s, lang, image),
            elem(
                "DynamicUpdate"@,
                Seq::empty(),
                leaf(
                    "WillShowUI"@,
                    if s.dynamic_update_on_error_only {
                        "OnError"@
                    } else {
                        "Always"@
                    },
                ),
            ),
        ),
        contains(
            unattend_xml(s, lang, image),
            elem(
                "ProductKey"@,
                Seq::empty(),
                leaf("Key"@, ""@) + leaf(
                    "WillShowUI"@,
                    if s.show_product_key_ui {
                        "Always"@
                    } else {
                        "Never"@
                    },
                ),
            ),
        ),
        contains(
            unattend_xml(s, lang, image),
            leaf("Key"@, "/IMAGE/INDEX"@) + leaf("Value"@, decimal(image as nat)),
        ),
{
    let x = unattend_xml(s, lang, image);
    lemma_file_holds_sections(s, lang, image);
    reveal(oobe);
    reveal(pe_setup);
    // OOBE
    let l1 = leaf("NetworkLocation"@, "Home"@);
    let l2 = leaf("SkipMachineOOBE"@, bool_text(s.skip_machine_oobe));
    let l3 = leaf("SkipUserOOBE"@, bool_text(s.skip_user_oobe));
    let l4 = leaf("HideEULAPage"@, bool_text(s.hide_eula_page));
    let l5 = leaf("HideLocalAccountScreen"@, bool_text(s.hide_local_account_screen));
    let l6 = leaf("HideOnlineAccountScreens"@, bool_text(s.hide_online_account_screens));
    let l7 = leaf("HideWirelessSetupInOOBE"@, bool_text(s.hide_wireless_setup));
    let l8 = leaf("ProtectYourPC"@, decimal(s.protect_your_pc as nat));
    let ob = l1 + l2 + l3 + l4 + l5 + l6 + l7 + l8;
    lemma_elem_contains_body("OOBE"@, Seq::empty(), ob);
    lemma_contains_trans(x, oobe(s), ob);
    lemma_contains_each8(l1, l2, l3, l4, l5, l6, l7, l8);
    lemma_contains_trans(x, ob, l2);
    lemma_contains_trans(x, ob, l3);
    lemma_contains_trans(x, ob, l4);
    lemma_contains_trans(x, ob, l5);
    lemma_contains_trans(x, ob, l6);
    lemma_contains_trans(x, ob, l7);
    lemma_contains_trans(x, ob, l8);
    // windowsPE setup
    let d = elem(
        "DynamicUpdate"@,
        Seq::empty(),
        leaf(
            "WillShowUI"@,
            if s.dynamic_update_on_error_only {
                "OnError"@
            } else {
                "Always"@
            },
        ),
    );
    let pk = elem(
        "ProductKey"@,
        Seq::empty(),
        leaf("Key"@, ""@) + leaf(
            "WillShowUI"@,
            if s.show_product_key_ui {
                "Always"@
            } else {
                "Never"@
            },
        ),
    );
    let eula = leaf("AcceptEula"@, bool_text(s.accept_eula));
    let u = elem("UserData"@, Seq::empty(), pk + eula);
    let en = leaf("EnableNetwork"@, bool_text(!s.disable_network_in_pe));
    let ef = leaf("EnableFirewall"@, bool_text(s.enable_firewall_in_pe));
    let ii = image_install(image);
    let pb = d + u + disk_configuration() + ii + en + ef;
    lemma_elem_contains_body("component"@, component_ns_attrs("Microsoft-Windows-Setup"@), pb);
    lemma_contains_trans(x, pe_setup(s, image), pb);
    lemma_contains_each6(d, u, disk_configuration(), ii, en, ef);
    lemma_contains_trans(x, pb, d);
    lemma_contains_trans(x, pb, u);
    lemma_contains_trans(x, pb, en);
    lemma_contains_trans(x, pb, ef);
    lemma_contains_trans(x, pb, ii);
    lemma_elem_contains_body("UserData"@, Seq::empty(), pk + eula);
    lemma_contains_trans(x, u, pk + eula);
    lemma_contains_prefix(pk, eula);
    lemma_contains_suffix(pk, eula);
    lemma_contains_trans(x, pk + eula, pk);
    lemma_contains_trans(x, pk + eula, eula);
    // the image index
    let meta = leaf("Key"@, "/IMAGE/INDEX"@) + leaf("Value"@, decimal(image as nat));
    let from = elem("InstallFrom"@, Seq::empty(), elem("MetaData"@, add_action(), meta));
    let os = from + leaf("WillShowUI"@, "Never"@) + elem(
        "InstallTo"@,
        Seq::empty(),
        leaf("DiskID"@, "0"@) + leaf("PartitionID"@, "3"@),
    );
    lemma_elem_contains_body("ImageInstall"@, Seq::empty(), elem("OSImage"@, Seq::empty(), os));
    lemma_elem_contains_body("OSImage"@, Seq::empty(), os);
    lemma_contains_trans(x, ii, elem("OSImage"@, Seq::empty(), os));
    lemma_contains_trans(x, elem("OSImage"@, Seq::empty(), os), os);
    lemma_contains_prefix(from + leaf("WillShowUI"@, "Never"@), elem(
        "InstallTo"@,
        Seq::empty(),
        leaf("DiskID"@, "0"@) + leaf("PartitionID"@, "3"@),
    ));
    lemma_contains_prefix(from, leaf("WillShowUI"@, "Never"@));
    lemma_contains_trans(x, os, from + leaf("WillShowUI"@, "Never"@));
    lemma_contains_trans(x, from + leaf("WillShowUI"@, "Never"@), from);
    lemma_elem_contains_body("InstallFrom"@, Seq::empty(), elem("MetaData"@, add_action(), meta));
    lemma_elem_contains_body("MetaData"@, add_action(), meta);
    lemma_contains_trans(x, from, elem("MetaData"@, add_action(), meta));
    lemma_contains_trans(x, elem("MetaData"@, add_action(), meta), meta);
}

} // verus!
