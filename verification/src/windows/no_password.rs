//! The generated `autounattend.xml` never carries a password: account
//! creation stays in the OOBE. Proved for every configuration: the fixed
//! text holds no password tag, the escaped values hold no `<`, and none
//! can form where a value meets the text around it.

use vstd::prelude::*;

use crate::text::dec;
use crate::windows::unattend::{
    autounattend_text, xml_escaped, bypass_block, bypass_text, disk_text, edition_name_of, product_key_of, UnattendConfig,
    BYPASS_HEAD, BYPASS_KEYS, BYPASS_MID, BYPASS_TAIL, DISK_CONFIG_HEAD, DISK_CONFIG_TAIL, EDITION_HOME_NAME,
    EDITION_PRO_NAME, KEY_HOME, KEY_PRO, WIPE_NOTE, XML_0, XML_1, XML_12, XML_2, XML_3, XML_4, XML_5, XML_6, XML_7,
    XML_8, XML_9,
};

verus! {

/// `s` holds the password tag `<Password` at `i`.
pub open spec fn password_tag_at(s: Seq<char>, i: int) -> bool {
    0 <= i && i + 9 <= s.len() && s[i] == '<' && s[i + 1] == 'P' && s[i + 2] == 'a' && s[i + 3] == 's'
        && s[i + 4] == 's' && s[i + 5] == 'w' && s[i + 6] == 'o' && s[i + 7] == 'r' && s[i + 8] == 'd'
}

/// `s` holds no password tag.
pub open spec fn no_password_tag(s: Seq<char>) -> bool {
    forall|i: int| !#[trigger] password_tag_at(s, i)
}

/// No password tag can begin in the last eight characters of `s`: a `<`
/// there is followed, within `s`, by something other than `P`.
pub open spec fn ends_clear(s: Seq<char>) -> bool {
    forall|i: int|
        0 <= i && s.len() - 8 <= i < s.len() && #[trigger] s[i] == '<' ==> i + 1 < s.len() && s[i + 1] != 'P'
}

/// A piece of fixed text that is safe to join: no tag, and none can start
/// at its end.
pub open spec fn clear_piece(s: Seq<char>) -> bool {
    no_password_tag(s) && ends_clear(s)
}

/// Joining two clear pieces gives a clear piece.
proof fn lemma_join(a: Seq<char>, b: Seq<char>)
    requires
        clear_piece(a),
        clear_piece(b),
    ensures
        clear_piece(a + b),
{
    let s = a + b;
    assert forall|i: int| !#[trigger] password_tag_at(s, i) by {
        if password_tag_at(s, i) {
            if i + 9 <= a.len() {
                assert(password_tag_at(a, i));
            } else if i >= a.len() {
                assert(password_tag_at(b, i - a.len()));
            } else {
                assert(s[i] == a[i]);
                if i + 1 < a.len() {
                    assert(s[i + 1] == a[i + 1]);
                }
            }
        }
    }
    assert forall|i: int| 0 <= i && s.len() - 8 <= i < s.len() && #[trigger] s[i] == '<' implies i + 1 < s.len()
        && s[i + 1] != 'P' by {
        if i >= a.len() {
            assert(s[i] == b[i - a.len()]);
            assert(s[i + 1] == b[i + 1 - a.len()]);
        } else {
            assert(s[i] == a[i]);
            assert(s[i + 1] == a[i + 1]);
        }
    }
}

/// A value that holds no tag, after a clear piece, forms none.
proof fn lemma_value(a: Seq<char>, f: Seq<char>)
    requires
        clear_piece(a),
        no_password_tag(f),
    ensures
        no_password_tag(a + f),
{
    let s = a + f;
    assert forall|i: int| !#[trigger] password_tag_at(s, i) by {
        if password_tag_at(s, i) {
            if i + 9 <= a.len() {
                assert(password_tag_at(a, i));
            } else if i >= a.len() {
                assert(password_tag_at(f, i - a.len()));
            } else {
                assert(s[i] == a[i]);
                if i + 1 < a.len() {
                    assert(s[i + 1] == a[i + 1]);
                }
            }
        }
    }
}

/// A clear piece of at least eight characters that opens with `<`, after
/// text with no tag, leaves clear text: a tag reaching into it would need
/// a letter of `Password` where it has `<`.
proof fn lemma_after_value(x: Seq<char>, c: Seq<char>)
    requires
        no_password_tag(x),
        clear_piece(c),
        c.len() >= 8,
        c[0] == '<',
    ensures
        clear_piece(x + c),
{
    let s = x + c;
    assert forall|i: int| !#[trigger] password_tag_at(s, i) by {
        if password_tag_at(s, i) {
            if i + 9 <= x.len() {
                assert(password_tag_at(x, i));
            } else if i >= x.len() {
                assert(password_tag_at(c, i - x.len()));
            } else {
                assert(s[x.len() as int] == c[0]);
            }
        }
    }
    assert forall|i: int| 0 <= i && s.len() - 8 <= i < s.len() && #[trigger] s[i] == '<' implies i + 1 < s.len()
        && s[i + 1] != 'P' by {
        assert(s[i] == c[i - x.len()]);
        assert(s[i + 1] == c[i + 1 - x.len()]);
    }
}

/// An escaped value holds no `<`, so no password tag.
proof fn lemma_escaped_has_no_tag(s: Seq<char>)
    ensures
        forall|i: int| 0 <= i < xml_escaped(s).len() ==> xml_escaped(s)[i] != '<',
        no_password_tag(xml_escaped(s)),
    decreases s.len(),
{
    reveal_strlit("&amp;");
    reveal_strlit("&lt;");
    reveal_strlit("&gt;");
    if s.len() > 0 {
        lemma_escaped_has_no_tag(s.drop_last());
        let a = xml_escaped(s.drop_last());
        let c = s.last();
        let b = if c == '&' {
            "&amp;"@
        } else if c == '<' {
            "&lt;"@
        } else if c == '>' {
            "&gt;"@
        } else {
            seq![c]
        };
        assert(xml_escaped(s) == a + b);
        assert forall|i: int| 0 <= i < (a + b).len() implies (a + b)[i] != '<' by {
            if i < a.len() {
                assert((a + b)[i] == a[i]);
            } else {
                assert((a + b)[i] == b[i - a.len()]);
            }
        }
    }
    let e = xml_escaped(s);
    assert forall|i: int| !#[trigger] password_tag_at(e, i) by {
        if password_tag_at(e, i) {
            assert(e[i] == '<');
        }
    }
}

proof fn lemma_empty_clear()
    ensures
        clear_piece(Seq::<char>::empty()),
{
}

proof fn lemma_head_pieces()
    ensures
        clear_piece(XML_0@),
        clear_piece(WIPE_NOTE@),
        clear_piece(XML_1@),
        clear_piece(XML_2@),
        clear_piece(XML_3@),
        clear_piece(XML_4@),
{
    reveal_strlit("<?xml version=\"1.0\" encoding=\"utf-8\"?>\n<!-- autounattend.xml gerado pelo SYSFORGE -->\n<!-- ATENÇÃO");
    reveal_strlit(" (MODO APAGAR DISCO 0 ATIVO)");
    reveal_strlit(": este arquivo automatiza a instalação do Windows 11. -->\n<unattend xmlns=\"urn:schemas-microsoft-com:unattend\">\n  <settings pass=\"windowsPE\">\n    <component name=\"Microsoft-Windows-Setup\" processorArchitecture=\"amd64\" publicKeyToken=\"31bf3856ad364e35\" language=\"neutral\" versionScope=\"nonSxS\">\n");
    reveal_strlit("      <UserData>\n        <AcceptEula>true</AcceptEula>\n        <ProductKey>\n          <Key>");
    reveal_strlit("</Key>\n          <WillShowUI>OnError</WillShowUI>\n        </ProductKey>\n      </UserData>\n");
    reveal_strlit("    </component>\n    <component name=\"Microsoft-Windows-International-Core-WinPE\" processorArchitecture=\"amd64\" publicKeyToken=\"31bf3856ad364e35\" language=\"neutral\" versionScope=\"nonSxS\">\n      <SetupUILanguage>\n        <UILocale>");
}

proof fn lemma_bypass_pieces()
    ensures
        clear_piece(BYPASS_HEAD@),
        clear_piece(BYPASS_MID@),
        clear_piece(BYPASS_TAIL@),
        forall|k: int| 0 <= k < 4 ==> clear_piece(#[trigger] BYPASS_KEYS[k]@),
{
    reveal_strlit("        <RunSynchronousCommand wcm:action=\"add\">\n          <Order>");
    reveal_strlit("</Order>\n          <Path>reg add HKLM\\SYSTEM\\Setup\\LabConfig /v ");
    reveal_strlit(" /t REG_DWORD /d 1 /f</Path>\n          <Description>SYSFORGE: bypass de requisito oficial do Windows 11</Description>\n        </RunSynchronousCommand>\n");
    reveal_strlit("BypassTPMCheck");
    reveal_strlit("BypassSecureBootCheck");
    reveal_strlit("BypassRAMCheck");
    reveal_strlit("BypassCPUCheck");
    assert(clear_piece(BYPASS_KEYS[0]@));
    assert(clear_piece(BYPASS_KEYS[1]@));
    assert(clear_piece(BYPASS_KEYS[2]@));
    assert(clear_piece(BYPASS_KEYS[3]@));
}

proof fn lemma_edition_pieces()
    ensures
        clear_piece(KEY_HOME@),
        clear_piece(KEY_PRO@),
        clear_piece(DISK_CONFIG_HEAD@),
        clear_piece(EDITION_HOME_NAME@),
        clear_piece(EDITION_PRO_NAME@),
        clear_piece(DISK_CONFIG_TAIL@),
{
    reveal_strlit("YTMG3-N6DKC-DKB77-7M9GH-8HVX7");
    reveal_strlit("VK7JG-NPHTM-C97JM-9MPGT-3V66T");
    reveal_strlit("      <DiskConfiguration>\n        <Disk wcm:action=\"add\">\n          <DiskID>0</DiskID>\n          <WillWipeDisk>true</WillWipeDisk>\n          <CreatePartitions>\n            <CreatePartition wcm:action=\"add\">\n              <Order>1</Order><Type>EFI</Type><Size>300</Size>\n            </CreatePartition>\n            <CreatePartition wcm:action=\"add\">\n              <Order>2</Order><Type>MSR</Type><Size>16</Size>\n            </CreatePartition>\n            <CreatePartition wcm:action=\"add\">\n              <Order>3</Order><Type>Primary</Type><Extend>true</Extend>\n            </CreatePartition>\n          </CreatePartitions>\n          <ModifyPartitions>\n            <ModifyPartition wcm:action=\"add\">\n              <Order>1</Order><PartitionID>1</PartitionID><Format>FAT32</Format><Label>System</Label>\n            </ModifyPartition>\n            <ModifyPartition wcm:action=\"add\">\n              <Order>2</Order><PartitionID>3</PartitionID><Format>NTFS</Format><Label>Windows</Label>\n            </ModifyPartition>\n          </ModifyPartitions>\n        </Disk>\n      </DiskConfiguration>\n      <ImageInstall>\n        <OSImage>\n          <InstallFrom>\n            <MetaData wcm:action=\"add\">\n              <Key>/IMAGE/NAME</Key>\n              <Value>");
    reveal_strlit("Windows 11 Home");
    reveal_strlit("Windows 11 Pro");
    reveal_strlit("</Value>\n            </MetaData>\n          </InstallFrom>\n          <InstallTo>\n            <DiskID>0</DiskID><PartitionID>3</PartitionID>\n          </InstallTo>\n        </OSImage>\n      </ImageInstall>\n");
}

proof fn lemma_tail_pieces()
    ensures
        clear_piece(XML_5@),
        clear_piece(XML_6@),
        clear_piece(XML_7@),
        clear_piece(XML_8@),
        clear_piece(XML_9@),
        clear_piece(XML_12@),
        XML_5@.len() >= 8 && XML_5@[0] == '<',
        XML_6@.len() >= 8 && XML_6@[0] == '<',
        XML_7@.len() >= 8 && XML_7@[0] == '<',
        XML_8@.len() >= 8 && XML_8@[0] == '<',
        XML_9@.len() >= 8 && XML_9@[0] == '<',
        XML_12@.len() >= 8 && XML_12@[0] == '<',
{
    reveal_strlit("</UILocale>\n      </SetupUILanguage>\n      <InputLocale>0416:00000416</InputLocale>\n      <SystemLocale>");
    reveal_strlit("</SystemLocale>\n      <UILanguage>");
    reveal_strlit("</UILanguage>\n      <UserLocale>");
    reveal_strlit("</UserLocale>\n    </component>\n  </settings>\n  <settings pass=\"specialize\">\n    <component name=\"Microsoft-Windows-Shell-Setup\" processorArchitecture=\"amd64\" publicKeyToken=\"31bf3856ad364e35\" language=\"neutral\" versionScope=\"nonSxS\">\n      <TimeZone>");
    reveal_strlit("</TimeZone>\n    </component>\n    <component name=\"Microsoft-Windows-Deployment\" processorArchitecture=\"amd64\" publicKeyToken=\"31bf3856ad364e35\" language=\"neutral\" versionScope=\"nonSxS\">\n      <RunSynchronous>\n        <RunSynchronousCommand wcm:action=\"add\">\n          <Order>1</Order>\n          <Path>reg add HKLM\\SOFTWARE\\Microsoft\\Windows\\CurrentVersion\\OOBE /v BypassNRO /t REG_DWORD /d 1 /f</Path>\n          <Description>SYSFORGE: permite conta local no OOBE (se o instalador pedir conta Microsoft, desconecte a rede)</Description>\n        </RunSynchronousCommand>\n      </RunSynchronous>\n    </component>\n  </settings>\n  <settings pass=\"oobeSystem\">\n    <component name=\"Microsoft-Windows-International-Core\" processorArchitecture=\"amd64\" publicKeyToken=\"31bf3856ad364e35\" language=\"neutral\" versionScope=\"nonSxS\">\n      <InputLocale>0416:00000416</InputLocale>\n      <SystemLocale>");
    reveal_strlit("</UserLocale>\n    </component>\n    <component name=\"Microsoft-Windows-Shell-Setup\" processorArchitecture=\"amd64\" publicKeyToken=\"31bf3856ad364e35\" language=\"neutral\" versionScope=\"nonSxS\">\n      <OOBE>\n        <HideEULAPage>true</HideEULAPage>\n        <HideOemRegistrationScreen>true</HideOemRegistrationScreen>\n        <HideOnlineAccountScreens>true</HideOnlineAccountScreens>\n        <HideWirelessSetupInOOBE>false</HideWirelessSetupInOOBE>\n        <ProtectYourPC>3</ProtectYourPC>\n      </OOBE>\n    </component>\n  </settings>\n</unattend>\n");
}

proof fn lemma_block(order: nat, name: Seq<char>)
    requires
        1 <= order <= 9,
        clear_piece(name),
    ensures
        clear_piece(bypass_block(order, name)),
{
    lemma_bypass_pieces();
    let d = dec(order);
    assert(d == seq![crate::text::digit_char(order)]);
    assert(clear_piece(d));
    lemma_join(BYPASS_HEAD@, d);
    lemma_join(BYPASS_HEAD@ + d, BYPASS_MID@);
    lemma_join(BYPASS_HEAD@ + d + BYPASS_MID@, name);
    lemma_join(BYPASS_HEAD@ + d + BYPASS_MID@ + name, BYPASS_TAIL@);
}

proof fn lemma_bypass_clear(bypass: bool)
    ensures
        clear_piece(bypass_text(bypass)),
{
    if bypass {
        lemma_bypass_pieces();
        let b1 = bypass_block(1, BYPASS_KEYS[0]@);
        let b2 = bypass_block(2, BYPASS_KEYS[1]@);
        let b3 = bypass_block(3, BYPASS_KEYS[2]@);
        let b4 = bypass_block(4, BYPASS_KEYS[3]@);
        assert(clear_piece(BYPASS_KEYS[0]@) && clear_piece(BYPASS_KEYS[1]@));
        assert(clear_piece(BYPASS_KEYS[2]@) && clear_piece(BYPASS_KEYS[3]@));
        lemma_block(1, BYPASS_KEYS[0]@);
        lemma_block(2, BYPASS_KEYS[1]@);
        lemma_block(3, BYPASS_KEYS[2]@);
        lemma_block(4, BYPASS_KEYS[3]@);
        lemma_join(b1, b2);
        lemma_join(b1 + b2, b3);
        lemma_join(b1 + b2 + b3, b4);
    } else {
        lemma_empty_clear();
    }
}

proof fn lemma_edition_clear(edition: Seq<char>, wipe: bool)
    ensures
        clear_piece(product_key_of(edition)),
        clear_piece(disk_text(edition, wipe)),
{
    lemma_edition_pieces();
    if wipe {
        lemma_join(DISK_CONFIG_HEAD@, edition_name_of(edition));
        lemma_join(DISK_CONFIG_HEAD@ + edition_name_of(edition), DISK_CONFIG_TAIL@);
    } else {
        lemma_empty_clear();
    }
}

/// The generated `autounattend.xml` never holds a password tag, whatever
/// the edition, locale, time zone, wipe and bypass choices.
pub proof fn law_unattend_never_holds_password(cfg: UnattendConfig)
    ensures
        no_password_tag(autounattend_text(cfg)),
{
    let l = xml_escaped(cfg.locale@);
    let t = xml_escaped(cfg.timezone@);
    lemma_escaped_has_no_tag(cfg.locale@);
    lemma_escaped_has_no_tag(cfg.timezone@);
    let w = if cfg.full_disk_wipe { WIPE_NOTE@ } else { Seq::empty() };
    lemma_head_pieces();
    lemma_tail_pieces();
    lemma_bypass_clear(cfg.bypass_requirements);
    lemma_edition_clear(cfg.edition@, cfg.full_disk_wipe);
    lemma_empty_clear();
    let p0 = XML_0@ + w;
    lemma_join(XML_0@, w);
    let p1 = p0 + XML_1@;
    lemma_join(p0, XML_1@);
    let p2 = p1 + bypass_text(cfg.bypass_requirements);
    lemma_join(p1, bypass_text(cfg.bypass_requirements));
    let p3 = p2 + XML_2@;
    lemma_join(p2, XML_2@);
    let p4 = p3 + product_key_of(cfg.edition@);
    lemma_join(p3, product_key_of(cfg.edition@));
    let p5 = p4 + XML_3@;
    lemma_join(p4, XML_3@);
    let p6 = p5 + disk_text(cfg.edition@, cfg.full_disk_wipe);
    lemma_join(p5, disk_text(cfg.edition@, cfg.full_disk_wipe));
    let p7 = p6 + XML_4@;
    lemma_join(p6, XML_4@);
    lemma_value(p7, l);
    let p8 = p7 + l + XML_5@;
    lemma_after_value(p7 + l, XML_5@);
    lemma_value(p8, l);
    let p9 = p8 + l + XML_6@;
    lemma_after_value(p8 + l, XML_6@);
    lemma_value(p9, l);
    let p10 = p9 + l + XML_7@;
    lemma_after_value(p9 + l, XML_7@);
    lemma_value(p10, l);
    let p11 = p10 + l + XML_8@;
    lemma_after_value(p10 + l, XML_8@);
    lemma_value(p11, t);
    let p12 = p11 + t + XML_9@;
    lemma_after_value(p11 + t, XML_9@);
    lemma_value(p12, l);
    let p13 = p12 + l + XML_6@;
    lemma_after_value(p12 + l, XML_6@);
    lemma_value(p13, l);
    let p14 = p13 + l + XML_7@;
    lemma_after_value(p13 + l, XML_7@);
    lemma_value(p14, l);
    let p15 = p14 + l + XML_12@;
    lemma_after_value(p14 + l, XML_12@);
    assert(autounattend_text(cfg) == p15);
}

} // verus!
