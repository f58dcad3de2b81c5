use win_debloat::fixes::autounattend::{build_xml, write_autounattend, write_autounattend_with, UnattendSettings};

#[test]
fn default_settings_values() {
    let s = UnattendSettings::default();
    assert!(s.accept_eula && s.dynamic_update_on_error_only && s.disable_network_in_pe && s.enable_firewall_in_pe);
    assert!(!s.show_product_key_ui);
    assert!(s.skip_machine_oobe && s.skip_user_oobe && s.hide_eula_page && s.hide_online_account_screens && s.hide_wireless_setup);
    assert!(!s.hide_local_account_screen);
    assert_eq!(s.protect_your_pc, 3);
}

#[test]
fn answer_file_content() {
    let xml = build_xml(&UnattendSettings::default(), "en-US", 6);
    assert!(xml.starts_with("<?xml version=\"1.0\" encoding=\"utf-8\"?>\n<unattend xmlns=\"urn:schemas-microsoft-com:unattend\"><settings pass=\"windowsPE\"><component name=\"Microsoft-Windows-International-Core-WinPE\" processorArchitecture=\"amd64\""));
    assert!(xml.ends_with("</settings></unattend>\n"));
    assert!(xml.contains("<SetupUILanguage><UILanguage>en-US</UILanguage><WillShowUI>Never</WillShowUI></SetupUILanguage>"));
    assert!(xml.contains("<MetaData wcm:action=\"add\"><Key>/IMAGE/INDEX</Key><Value>6</Value></MetaData>"));
    assert!(xml.contains("<DynamicUpdate><WillShowUI>OnError</WillShowUI></DynamicUpdate>"));
    assert!(xml.contains("<ProductKey><Key></Key><WillShowUI>Never</WillShowUI></ProductKey><AcceptEula>true</AcceptEula>"));
    assert!(xml.contains("<EnableNetwork>false</EnableNetwork><EnableFirewall>true</EnableFirewall>"));
    assert!(xml.contains("<ProtectYourPC>3</ProtectYourPC>"));
    assert!(xml.contains("<HideLocalAccountScreen>false</HideLocalAccountScreen>"));
    assert!(xml.contains("<CreatePartition wcm:action=\"add\"><Order>3</Order><Type>Primary</Type><Extend>true</Extend></CreatePartition>"));
    assert!(xml.contains("<settings pass=\"specialize\"><component name=\"Microsoft-Windows-Shell-Setup\" processorArchitecture=\"amd64\" publicKeyToken=\"31bf3856ad364e35\" language=\"neutral\" versionScope=\"nonSxS\"><RegisteredOwner></RegisteredOwner>"));
    assert_eq!(xml.matches("<UserLocale>en-US</UserLocale>").count(), 2);
}

#[test]
fn answer_file_follows_settings() {
    let mut s = UnattendSettings::default();
    s.dynamic_update_on_error_only = false;
    s.show_product_key_ui = true;
    s.disable_network_in_pe = false;
    s.protect_your_pc = 1;
    let xml = build_xml(&s, "de-DE", 4294967295);
    assert!(xml.contains("<DynamicUpdate><WillShowUI>Always</WillShowUI></DynamicUpdate>"));
    assert!(xml.contains("<Key></Key><WillShowUI>Always</WillShowUI>"));
    assert!(xml.contains("<EnableNetwork>true</EnableNetwork>"));
    assert!(xml.contains("<ProtectYourPC>1</ProtectYourPC>"));
    assert!(xml.contains("<Value>4294967295</Value>"));
    assert!(xml.contains("<InputLocale>de-DE</InputLocale>"));
}

#[test]
fn language_text_is_escaped() {
    let xml = build_xml(&UnattendSettings::default(), "x<y>&\"'", 1);
    assert!(xml.contains("<InputLocale>x&lt;y&gt;&amp;&quot;&apos;</InputLocale>"));
    assert!(!xml.contains("x<y"));
}

#[test]
fn answer_file_location() {
    let f = write_autounattend("/stage", "en-US", 2);
    assert_eq!(f.path, "/stage/autounattend.xml");
    assert_eq!(f.contents, build_xml(&UnattendSettings::default(), "en-US", 2));
    let mut s = UnattendSettings::default();
    s.protect_your_pc = 2;
    let g = write_autounattend_with("/stage/", "en-US", 2, &s);
    assert_eq!(g.path, "/stage/autounattend.xml");
    assert!(g.contents.contains("<ProtectYourPC>2</ProtectYourPC>"));
}

#[test]
fn language_appears_only_in_the_locale_elements() {
    let s = UnattendSettings::default();
    let en = build_xml(&s, "en-US", 6);
    let de = build_xml(&s, "de-DE", 6);
    assert_eq!(en.matches("en-US").count(), 9);
    assert_eq!(en.replace("en-US", "de-DE"), de);
    let odd = build_xml(&s, "a<b", 6);
    assert_eq!(odd.matches("a&lt;b").count(), 9);
    assert_eq!(odd.replace("a&lt;b", "de-DE"), de);
}
