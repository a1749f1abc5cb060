//! `autounattend.xml` for Windows 11.
//!
//! Old hardware (no TPM, older CPU) is barred by the official Windows 11
//! requirements; the `HKLM\SYSTEM\Setup\LabConfig` keys applied in the
//! windowsPE pass lift those checks with the official installer. The file
//! never carries a password: account creation stays in the OOBE, and the
//! values written into it are XML-escaped.

use vstd::prelude::*;

use crate::error::{error_code, ErrorDomain, SysforgeError};
use crate::text::{eq_ignore_ascii_case, eq_ignore_case, push_dec, push_str, dec};

verus! {

/// Generic installation key of Windows 11 Home (public; selects the
/// edition, activates nothing).
pub const KEY_HOME: &'static str = "YTMG3-N6DKC-DKB77-7M9GH-8HVX7";
/// Generic installation key of Windows 11 Pro.
pub const KEY_PRO: &'static str = "VK7JG-NPHTM-C97JM-9MPGT-3V66T";

pub const WINDOWS11_DOWNLOAD_URL: &'static str =
    "https://www.microsoft.com/pt-br/software-download/windows11";

pub const EDITION_HOME_NAME: &'static str = "Windows 11 Home";
pub const EDITION_PRO_NAME: &'static str = "Windows 11 Pro";
pub const WIPE_NOTE: &'static str = " (MODO APAGAR DISCO 0 ATIVO)";

pub const BYPASS_KEYS: [&'static str; 4] = [
    "BypassTPMCheck",
    "BypassSecureBootCheck",
    "BypassRAMCheck",
    "BypassCPUCheck",
];

pub const BYPASS_HEAD: &'static str = "        <RunSynchronousCommand wcm:action=\"add\">\n          <Order>";
pub const BYPASS_MID: &'static str = "</Order>\n          <Path>reg add HKLM\\SYSTEM\\Setup\\LabConfig /v ";
pub const BYPASS_TAIL: &'static str = " /t REG_DWORD /d 1 /f</Path>\n          <Description>SYSFORGE: bypass de requisito oficial do Windows 11</Description>\n        </RunSynchronousCommand>\n";
pub const DISK_CONFIG_HEAD: &'static str = "      <DiskConfiguration>\n        <Disk wcm:action=\"add\">\n          <DiskID>0</DiskID>\n          <WillWipeDisk>true</WillWipeDisk>\n          <CreatePartitions>\n            <CreatePartition wcm:action=\"add\">\n              <Order>1</Order><Type>EFI</Type><Size>300</Size>\n            </CreatePartition>\n            <CreatePartition wcm:action=\"add\">\n              <Order>2</Order><Type>MSR</Type><Size>16</Size>\n            </CreatePartition>\n            <CreatePartition wcm:action=\"add\">\n              <Order>3</Order><Type>Primary</Type><Extend>true</Extend>\n            </CreatePartition>\n          </CreatePartitions>\n          <ModifyPartitions>\n            <ModifyPartition wcm:action=\"add\">\n              <Order>1</Order><PartitionID>1</PartitionID><Format>FAT32</Format><Label>System</Label>\n            </ModifyPartition>\n            <ModifyPartition wcm:action=\"add\">\n              <Order>2</Order><PartitionID>3</PartitionID><Format>NTFS</Format><Label>Windows</Label>\n            </ModifyPartition>\n          </ModifyPartitions>\n        </Disk>\n      </DiskConfiguration>\n      <ImageInstall>\n        <OSImage>\n          <InstallFrom>\n            <MetaData wcm:action=\"add\">\n              <Key>/IMAGE/NAME</Key>\n              <Value>";
pub const DISK_CONFIG_TAIL: &'static str = "</Value>\n            </MetaData>\n          </InstallFrom>\n          <InstallTo>\n            <DiskID>0</DiskID><PartitionID>3</PartitionID>\n          </InstallTo>\n        </OSImage>\n      </ImageInstall>\n";
pub const XML_0: &'static str = "<?xml version=\"1.0\" encoding=\"utf-8\"?>\n<!-- autounattend.xml gerado pelo SYSFORGE -->\n<!-- ATENÇÃO";
pub const XML_1: &'static str = ": este arquivo automatiza a instalação do Windows 11. -->\n<unattend xmlns=\"urn:schemas-microsoft-com:unattend\">\n  <settings pass=\"windowsPE\">\n    <component name=\"Microsoft-Windows-Setup\" processorArchitecture=\"amd64\" publicKeyToken=\"31bf3856ad364e35\" language=\"neutral\" versionScope=\"nonSxS\">\n";
pub const XML_2: &'static str = "      <UserData>\n        <AcceptEula>true</AcceptEula>\n        <ProductKey>\n          <Key>";
pub const XML_3: &'static str = "</Key>\n          <WillShowUI>OnError</WillShowUI>\n        </ProductKey>\n      </UserData>\n";
pub const XML_4: &'static str = "    </component>\n    <component name=\"Microsoft-Windows-International-Core-WinPE\" processorArchitecture=\"amd64\" publicKeyToken=\"31bf3856ad364e35\" language=\"neutral\" versionScope=\"nonSxS\">\n      <SetupUILanguage>\n        <UILocale>";
pub const XML_5: &'static str = "</UILocale>\n      </SetupUILanguage>\n      <InputLocale>0416:00000416</InputLocale>\n      <SystemLocale>";
pub const XML_6: &'static str = "</SystemLocale>\n      <UILanguage>";
pub const XML_7: &'static str = "</UILanguage>\n      <UserLocale>";
pub const XML_8: &'static str = "</UserLocale>\n    </component>\n  </settings>\n  <settings pass=\"specialize\">\n    <component name=\"Microsoft-Windows-Shell-Setup\" processorArchitecture=\"amd64\" publicKeyToken=\"31bf3856ad364e35\" language=\"neutral\" versionScope=\"nonSxS\">\n      <TimeZone>";
pub const XML_9: &'static str = "</TimeZone>\n    </component>\n    <component name=\"Microsoft-Windows-Deployment\" processorArchitecture=\"amd64\" publicKeyToken=\"31bf3856ad364e35\" language=\"neutral\" versionScope=\"nonSxS\">\n      <RunSynchronous>\n        <RunSynchronousCommand wcm:action=\"add\">\n          <Order>1</Order>\n          <Path>reg add HKLM\\SOFTWARE\\Microsoft\\Windows\\CurrentVersion\\OOBE /v BypassNRO /t REG_DWORD /d 1 /f</Path>\n          <Description>SYSFORGE: permite conta local no OOBE (se o instalador pedir conta Microsoft, desconecte a rede)</Description>\n        </RunSynchronousCommand>\n      </RunSynchronous>\n    </component>\n  </settings>\n  <settings pass=\"oobeSystem\">\n    <component name=\"Microsoft-Windows-International-Core\" processorArchitecture=\"amd64\" publicKeyToken=\"31bf3856ad364e35\" language=\"neutral\" versionScope=\"nonSxS\">\n      <InputLocale>0416:00000416</InputLocale>\n      <SystemLocale>";
pub const XML_12: &'static str = "</UserLocale>\n    </component>\n    <component name=\"Microsoft-Windows-Shell-Setup\" processorArchitecture=\"amd64\" publicKeyToken=\"31bf3856ad364e35\" language=\"neutral\" versionScope=\"nonSxS\">\n      <OOBE>\n        <HideEULAPage>true</HideEULAPage>\n        <HideOemRegistrationScreen>true</HideOemRegistrationScreen>\n        <HideOnlineAccountScreens>true</HideOnlineAccountScreens>\n        <HideWirelessSetupInOOBE>false</HideWirelessSetupInOOBE>\n        <ProtectYourPC>3</ProtectYourPC>\n      </OOBE>\n    </component>\n  </settings>\n</unattend>\n";

#[derive(Debug, Clone)]
pub struct UnattendConfig {
    /// "home" | "pro"
    pub edition: String,
    /// Default locale pt-BR (formats and ABNT keyboard).
    pub locale: String,
    /// Brasília time zone (no DST since 2019).
    pub timezone: String,
    /// Destructive mode: wipes ALL of disk 0 (the current Linux included).
    /// Without it the installer asks where to install.
    pub full_disk_wipe: bool,
    /// LabConfig bypass of TPM/SecureBoot/RAM/CPU, for old hardware.
    pub bypass_requirements: bool,
}

impl Default for UnattendConfig {
    fn default() -> (c: Self)
        ensures
            c.edition@ == "pro"@,
            c.locale@ == "pt-BR"@,
            c.timezone@ == "E. South America Standard Time"@,
            !c.full_disk_wipe,
            c.bypass_requirements,
    {
        UnattendConfig {
            edition: String::from_str("pro"),
            locale: String::from_str("pt-BR"),
            timezone: String::from_str("E. South America Standard Time"),
            full_disk_wipe: false,
            bypass_requirements: true,
        }
    }
}

/// Is the edition "home" (any ASCII case)?
pub open spec fn is_home(edition: Seq<char>) -> bool {
    eq_ignore_ascii_case(edition, "home"@)
}

/// The editions the generator accepts. Written with the ASCII case fold:
/// for the targets "home" and "pro" it agrees with full Unicode lower
/// casing, since no other character lowers to one of their letters alone.
pub open spec fn known_edition(edition: Seq<char>) -> bool {
    is_home(edition) || eq_ignore_ascii_case(edition, "pro"@)
}

/// The generic key of the edition (Pro unless "home").
pub open spec fn product_key_of(edition: Seq<char>) -> Seq<char> {
    if is_home(edition) { KEY_HOME@ } else { KEY_PRO@ }
}

/// Exec form of [`product_key_of`].
pub fn product_key(edition: &str) -> (k: &'static str)
    ensures
        k@ == product_key_of(edition@),
{
    if eq_ignore_case(edition, "home") {
        KEY_HOME
    } else {
        KEY_PRO
    }
}

/// The XML text of a value: `&`, `<` and `>` become `&amp;`, `&lt;` and
/// `&gt;`; every other character stays.
pub open spec fn xml_escaped(s: Seq<char>) -> Seq<char>
    decreases s.len(),
{
    if s.len() == 0 {
        Seq::empty()
    } else {
        let c = s.last();
        xml_escaped(s.drop_last()) + if c == '&' {
            "&amp;"@
        } else if c == '<' {
            "&lt;"@
        } else if c == '>' {
            "&gt;"@
        } else {
            seq![c]
        }
    }
}

/// XML escaping of a value written between tags.
pub fn esc(s: &str) -> (r: String)
    ensures
        r@ == xml_escaped(s@),
{
    let v = crate::text::chars_of(s);
    let mut r = String::new();
    let mut i: usize = 0;
    while i < v.len()
        invariant
            i <= v.len(),
            v@ == s@,
            r@ == xml_escaped(v@.take(i as int)),
        decreases v.len() - i,
    {
        let c = v[i];
        if c == '&' {
            push_str(&mut r, "&amp;");
        } else if c == '<' {
            push_str(&mut r, "&lt;");
        } else if c == '>' {
            push_str(&mut r, "&gt;");
        } else {
            crate::text::push_char(&mut r, c);
        }
        proof {
            assert(v@.take(i + 1).drop_last() =~= v@.take(i as int));
            assert(v@.take(i + 1).last() == c);
        }
        i += 1;
    }
    assert(v@.take(v.len() as int) =~= v@);
    r
}

/// One LabConfig `RunSynchronousCommand` (order `order`, value `name`).
pub open spec fn bypass_block(order: nat, name: Seq<char>) -> Seq<char> {
    BYPASS_HEAD@ + dec(order) + BYPASS_MID@ + name + BYPASS_TAIL@
}

/// The four LabConfig commands, or nothing.
pub open spec fn bypass_text(bypass: bool) -> Seq<char> {
    if bypass {
        bypass_block(1, BYPASS_KEYS[0]@) + bypass_block(2, BYPASS_KEYS[1]@) + bypass_block(3, BYPASS_KEYS[2]@)
            + bypass_block(4, BYPASS_KEYS[3]@)
    } else {
        Seq::empty()
    }
}

/// The edition name written in the image selection.
pub open spec fn edition_name_of(edition: Seq<char>) -> Seq<char> {
    if is_home(edition) { EDITION_HOME_NAME@ } else { EDITION_PRO_NAME@ }
}

/// Disk configuration: only in full-wipe mode; otherwise the partition
/// choice stays manual in the installer.
pub open spec fn disk_text(edition: Seq<char>, wipe: bool) -> Seq<char> {
    if wipe {
        DISK_CONFIG_HEAD@ + edition_name_of(edition) + DISK_CONFIG_TAIL@
    } else {
        Seq::empty()
    }
}

/// The whole `autounattend.xml`.
pub open spec fn autounattend_text(cfg: UnattendConfig) -> Seq<char> {
    let l = xml_escaped(cfg.locale@);
    let t = xml_escaped(cfg.timezone@);
    XML_0@ + (if cfg.full_disk_wipe { WIPE_NOTE@ } else { Seq::empty() }) + XML_1@
        + bypass_text(cfg.bypass_requirements) + XML_2@ + product_key_of(cfg.edition@) + XML_3@
        + disk_text(cfg.edition@, cfg.full_disk_wipe) + XML_4@ + l + XML_5@ + l + XML_6@ + l + XML_7@
        + l + XML_8@ + t + XML_9@ + l + XML_6@ + l + XML_7@ + l + XML_12@
}

fn push_bypass_block(s: &mut String, order: u64, name: &str)
    ensures
        final(s)@ == old(s)@ + bypass_block(order as nat, name@),
{
    push_str(s, BYPASS_HEAD);
    push_dec(s, order);
    push_str(s, BYPASS_MID);
    push_str(s, name);
    push_str(s, BYPASS_TAIL);
    assert(final(s)@ =~= old(s)@ + bypass_block(order as nat, name@));
}

/// Generates the complete autounattend.xml. An edition other than "home"
/// or "pro" is refused with `SF-NOTSUP-002`.
pub fn generate_autounattend(cfg: &UnattendConfig) -> (r: Result<String, SysforgeError>)
    ensures
        known_edition(cfg.edition@) <==> r is Ok,
        r matches Ok(x) ==> x@ == autounattend_text(*cfg),
        r matches Err(e) ==> e.code@ == error_code(ErrorDomain::NotSupported, 2)
            && e.message@ == "Edição desconhecida: "@ + cfg.edition@
            && e.recommendation@ == "Use \"home\" ou \"pro\"."@,
{
    let home = eq_ignore_case(cfg.edition.as_str(), "home");
    if !home && !eq_ignore_case(cfg.edition.as_str(), "pro") {
        let mut msg = String::from_str("Edição desconhecida: ");
        push_str(&mut msg, cfg.edition.as_str());
        return Err(SysforgeError::new(ErrorDomain::NotSupported, 2, msg.as_str())
            .with_recommendation("Use \"home\" ou \"pro\"."));
    }
    let locale = esc(cfg.locale.as_str());
    let timezone = esc(cfg.timezone.as_str());
    let key = product_key(cfg.edition.as_str());
    let mut x = String::from_str(XML_0);
    if cfg.full_disk_wipe {
        push_str(&mut x, WIPE_NOTE);
    }
    push_str(&mut x, XML_1);
    if cfg.bypass_requirements {
        push_bypass_block(&mut x, 1, BYPASS_KEYS[0]);
        push_bypass_block(&mut x, 2, BYPASS_KEYS[1]);
        push_bypass_block(&mut x, 3, BYPASS_KEYS[2]);
        push_bypass_block(&mut x, 4, BYPASS_KEYS[3]);
    }
    push_str(&mut x, XML_2);
    push_str(&mut x, key);
    push_str(&mut x, XML_3);
    if cfg.full_disk_wipe {
        push_str(&mut x, DISK_CONFIG_HEAD);
        push_str(&mut x, if home { EDITION_HOME_NAME } else { EDITION_PRO_NAME });
        push_str(&mut x, DISK_CONFIG_TAIL);
    }
    push_str(&mut x, XML_4);
    push_str(&mut x, locale.as_str());
    push_str(&mut x, XML_5);
    push_str(&mut x, locale.as_str());
    push_str(&mut x, XML_6);
    push_str(&mut x, locale.as_str());
    push_str(&mut x, XML_7);
    push_str(&mut x, locale.as_str());
    push_str(&mut x, XML_8);
    push_str(&mut x, timezone.as_str());
    push_str(&mut x, XML_9);
    push_str(&mut x, locale.as_str());
    push_str(&mut x, XML_6);
    push_str(&mut x, locale.as_str());
    push_str(&mut x, XML_7);
    push_str(&mut x, locale.as_str());
    push_str(&mut x, XML_12);
    assert(x@ =~= autounattend_text(*cfg));
    Ok(x)
}


/// Options of the Windows installation flow.
#[derive(Debug, Clone)]
pub struct WinstallOpts {
    /// Apply (real actions) instead of only checking.
    pub apply: bool,
    pub iso: Option<String>,
    pub edition: String,
    pub full_wipe: bool,
    pub reboot: bool,
}

/// The unattend configuration the flow generates: the defaults with the
/// chosen edition and wipe mode.
pub fn unattend_config_for(opts: &WinstallOpts) -> (c: UnattendConfig)
    ensures
        c.edition@ == opts.edition@,
        c.locale@ == "pt-BR"@,
        c.timezone@ == "E. South America Standard Time"@,
        c.full_disk_wipe == opts.full_wipe,
        c.bypass_requirements,
{
    let d = UnattendConfig::default();
    UnattendConfig {
        edition: crate::text::clone_string(&opts.edition),
        full_disk_wipe: opts.full_wipe,
        ..d
    }
}
} // verus!
