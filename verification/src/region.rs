//! Download region, target platform and the Bun download address.
use vstd::prelude::*;

use crate::text::{concat_all, join, str_eq};

verus! {

/// Where the user is: China, or anywhere else.
#[derive(Debug, Clone, Copy, PartialEq, Eq, Structural)]
pub enum Region {
    Cn,
    Global,
}

/// The operating system the launcher was built for; every target other than
/// macOS and Windows counts as Linux.
#[derive(Debug, Clone, Copy, PartialEq, Eq, Structural)]
pub enum Os {
    MacOs,
    Windows,
    Linux,
}

/// The processor architecture the launcher was built for; every target
/// other than `aarch64` counts as x64.
#[derive(Debug, Clone, Copy, PartialEq, Eq, Structural)]
pub enum Arch {
    Aarch64,
    X64,
}

/// Operating system and architecture together.
#[derive(Debug, Clone, Copy, PartialEq, Eq, Structural)]
pub struct Platform {
    pub os: Os,
    pub arch: Arch,
}

/// Bun version installed by default.
pub const DEFAULT_BUN_VERSION: &'static str = "1.2.5";

/// The name Bun's release archives use for an operating system.
pub open spec fn os_name(os: Os) -> Seq<char> {
    match os {
        Os::MacOs => "darwin"@,
        Os::Windows => "windows"@,
        Os::Linux => "linux"@,
    }
}

/// The name Bun's release archives use for an architecture.
pub open spec fn arch_name(arch: Arch) -> Seq<char> {
    match arch {
        Arch::Aarch64 => "aarch64"@,
        Arch::X64 => "x64"@,
    }
}

/// The archive name of Bun for a platform, such as `bun-darwin-aarch64`.
pub open spec fn bun_target(p: Platform) -> Seq<char> {
    "bun-"@ + os_name(p.os) + "-"@ + arch_name(p.arch)
}

/// The mirror that serves Bun archives in a region.
pub open spec fn mirror_base(region: Region) -> Seq<char> {
    match region {
        Region::Cn => "https://registry.npmmirror.com/-/binary/bun/bun-v"@,
        Region::Global => "https://github.com/oven-sh/bun/releases/download/bun-v"@,
    }
}

/// The address of the Bun archive for a region, version and platform.
pub open spec fn spec_bun_download_url(region: Region, version: Seq<char>, p: Platform) -> Seq<
    char,
> {
    mirror_base(region) + version + "/"@ + bun_target(p) + ".zip"@
}

/// The archive in a download address is named after the platform's own
/// architecture, whatever the operating system, region and version: an x64
/// platform gets the `-x64.zip` archive and an aarch64 one the
/// `-aarch64.zip` archive, so two platforms that differ only in their
/// architecture never get the same address.
pub proof fn lemma_download_names_own_architecture(region: Region, version: Seq<char>, p: Platform)
    ensures
        ({
            let url = spec_bun_download_url(region, version, p);
            p.arch == Arch::X64 ==> url.len() >= 8 && url.subrange(url.len() - 8, url.len() as int)
                == "-x64.zip"@
        }),
        ({
            let url = spec_bun_download_url(region, version, p);
            p.arch == Arch::Aarch64 ==> url.len() >= 12 && url.subrange(
                url.len() - 12,
                url.len() as int,
            ) == "-aarch64.zip"@
        }),
        forall|q: Platform|
            q.os == p.os && q.arch != p.arch ==> #[trigger] spec_bun_download_url(region, version, q)
                != spec_bun_download_url(region, version, p),
{
    reveal_strlit("-x64.zip");
    reveal_strlit("-aarch64.zip");
    reveal_strlit("x64");
    reveal_strlit("aarch64");
    reveal_strlit("-");
    reveal_strlit(".zip");
    assert forall|q: Platform| #[trigger] ends_as(spec_bun_download_url(region, version, q), q.arch) by {
        let head = mirror_base(region) + version + "/"@ + "bun-"@ + os_name(q.os);
        let url = spec_bun_download_url(region, version, q);
        assert(url =~= head + ("-"@ + arch_name(q.arch) + ".zip"@));
        let tail = "-"@ + arch_name(q.arch) + ".zip"@;
        assert(url.subrange(url.len() - tail.len(), url.len() as int) =~= tail);
        if q.arch == Arch::X64 {
            assert(tail =~= "-x64.zip"@);
        } else {
            assert(tail =~= "-aarch64.zip"@);
        }
    }
    assert(ends_as(spec_bun_download_url(region, version, p), p.arch));
    assert forall|q: Platform|
        q.os == p.os && q.arch != p.arch implies #[trigger] spec_bun_download_url(region, version, q)
            != spec_bun_download_url(region, version, p) by {
        assert(ends_as(spec_bun_download_url(region, version, q), q.arch));
        let a = spec_bun_download_url(region, version, p);
        if spec_bun_download_url(region, version, q) == a {
            // The same address cannot end in both archive names: the last
            // eight characters differ (`-x64.zip` against `ch64.zip`).
            assert(a.len() >= 12);
            assert(a.subrange(a.len() - 8, a.len() as int) =~= "-aarch64.zip"@.subrange(4, 12)
                || a.subrange(a.len() - 8, a.len() as int) =~= "-x64.zip"@);
            if p.arch == Arch::X64 {
                assert(a.subrange(a.len() - 12, a.len() as int).subrange(4, 12) =~= a.subrange(
                    a.len() - 8,
                    a.len() as int,
                ));
                assert("-aarch64.zip"@.subrange(4, 12)[0] != "-x64.zip"@[0]);
            } else {
                assert(a.subrange(a.len() - 12, a.len() as int).subrange(4, 12) =~= a.subrange(
                    a.len() - 8,
                    a.len() as int,
                ));
                assert("-aarch64.zip"@.subrange(4, 12)[0] != "-x64.zip"@[0]);
            }
        }
    }
}

/// An address ends with the archive name of architecture `arch`.
spec fn ends_as(url: Seq<char>, arch: Arch) -> bool {
    match arch {
        Arch::X64 => url.len() >= 8 && url.subrange(url.len() - 8, url.len() as int) == "-x64.zip"@,
        Arch::Aarch64 => url.len() >= 12 && url.subrange(url.len() - 12, url.len() as int)
            == "-aarch64.zip"@,
    }
}

fn os_str(os: Os) -> (r: &'static str)
    ensures
        r@ == os_name(os),
{
    match os {
        Os::MacOs => "darwin",
        Os::Windows => "windows",
        Os::Linux => "linux",
    }
}

fn arch_str(arch: Arch) -> (r: &'static str)
    ensures
        r@ == arch_name(arch),
{
    match arch {
        Arch::Aarch64 => "aarch64",
        Arch::X64 => "x64",
    }
}

fn mirror_str(region: Region) -> (r: &'static str)
    ensures
        r@ == mirror_base(region),
{
    match region {
        Region::Cn => "https://registry.npmmirror.com/-/binary/bun/bun-v",
        Region::Global => "https://github.com/oven-sh/bun/releases/download/bun-v",
    }
}

/// The address to download Bun `version` from, for `region` and `platform`.
pub fn get_bun_download_url(region: Region, version: &str, platform: Platform) -> (r: String)
    ensures
        r@ == spec_bun_download_url(region, version@, platform),
{
    let parts = [
        mirror_str(region),
        version,
        "/",
        "bun-",
        os_str(platform.os),
        "-",
        arch_str(platform.arch),
        ".zip",
    ];
    let r = join(&parts);
    proof {
        let v = crate::text::views(parts@);
        assert(concat_all(v) =~= v[0] + v[1] + v[2] + v[3] + v[4] + v[5] + v[6] + v[7]) by {
            reveal_with_fuel(concat_all, 9);
        }
    }
    r
}

/// How the download mirror of a region is described to the user.
pub open spec fn spec_mirror_label(region: Region) -> Seq<char> {
    match region {
        Region::Cn => "China mirror (npmmirror.com)"@,
        Region::Global => "Global (github.com)"@,
    }
}

/// Describes the download mirror of a region.
pub fn mirror_label(region: Region) -> (r: &'static str)
    ensures
        r@ == spec_mirror_label(region),
{
    match region {
        Region::Cn => "China mirror (npmmirror.com)",
        Region::Global => "Global (github.com)",
    }
}

/// The services asked, in this order, which country the user is in.
#[derive(Debug, Clone, Copy, PartialEq, Eq, Structural)]
pub enum IpService {
    IpApi,
    IpInfo,
    IpSb,
}

/// The service asked at attempt `i` (0, 1 or 2).
pub open spec fn service_at(i: int) -> IpService {
    if i == 0 {
        IpService::IpApi
    } else if i == 1 {
        IpService::IpInfo
    } else {
        IpService::IpSb
    }
}

/// The address each service answers at.
pub open spec fn spec_service_url(s: IpService) -> Seq<char> {
    match s {
        IpService::IpApi => "http://ip-api.com/json/?fields=countryCode"@,
        IpService::IpInfo => "https://ipinfo.io/json"@,
        IpService::IpSb => "https://api.ip.sb/geoip"@,
    }
}

impl IpService {
    /// The address the service answers at.
    pub fn url(&self) -> (r: &'static str)
        ensures
            r@ == spec_service_url(*self),
    {
        match self {
            IpService::IpApi => "http://ip-api.com/json/?fields=countryCode",
            IpService::IpInfo => "https://ipinfo.io/json",
            IpService::IpSb => "https://api.ip.sb/geoip",
        }
    }
}

/// The region a service's answer stands for: China where the country code
/// is `CN`, anywhere else otherwise (a missing code included).
pub open spec fn spec_region_from_country(code: Option<Seq<char>>) -> Region {
    if code == Some("CN"@) {
        Region::Cn
    } else {
        Region::Global
    }
}

/// The region a service's answer stands for.
pub fn region_from_country(code: Option<&str>) -> (r: Region)
    ensures
        r == spec_region_from_country(
            match code {
                Some(c) => Some(c@),
                None => None,
            },
        ),
{
    match code {
        Some(c) => {
            if str_eq(c, "CN") {
                Region::Cn
            } else {
                Region::Global
            }
        },
        None => Region::Global,
    }
}

/// What the detection does next: ask a service, or settle on a region.
#[derive(Debug, Clone, Copy, PartialEq, Eq, Structural)]
pub enum Detect {
    Probe(IpService),
    Decided(Region),
}

/// The view of one service's outcome: `None` where it failed or timed out,
/// otherwise the country code its answer held, if any.
pub open spec fn outcome_view(o: &Option<Option<String>>) -> Option<Option<Seq<char>>> {
    match o {
        Some(Some(c)) => Some(Some(c@)),
        Some(None) => Some(None),
        None => None,
    }
}

/// The region detected from the outcomes of the services, asked in order:
/// the answer of the first that answered, or China where none did.
pub open spec fn spec_detected_region(outcomes: Seq<Option<Option<Seq<char>>>>) -> Region
    decreases outcomes.len(),
{
    if outcomes.len() == 0 {
        Region::Cn
    } else {
        match outcomes[0] {
            Some(code) => spec_region_from_country(code),
            None => spec_detected_region(outcomes.drop_first()),
        }
    }
}

/// Detection of the user's region by asking the services one after the
/// other until one answers.
pub struct RegionDetection {
    attempts: usize,
}

impl RegionDetection {
    /// How many services have failed so far.
    pub closed spec fn attempts(&self) -> nat {
        self.attempts as nat
    }

    /// Detection is still going on.
    pub closed spec fn wf(&self) -> bool {
        self.attempts < 3
    }

    /// Whether the detection is still going on.
    pub fn is_running(&self) -> (r: bool)
        ensures
            r == self.wf(),
    {
        self.attempts < 3
    }

    /// Begins the detection: the first service is asked first.
    pub fn start() -> (r: (RegionDetection, Detect))
        ensures
            r.0.wf(),
            r.0.attempts() == 0,
            r.1 == Detect::Probe(service_at(0)),
    {
        (RegionDetection { attempts: 0 }, Detect::Probe(IpService::IpApi))
    }

    /// Takes the outcome of the service asked last and says what comes next.
    pub fn step(&mut self, outcome: &Option<Option<String>>) -> (r: Detect)
        requires
            old(self).wf(),
        ensures
            match outcome_view(outcome) {
                Some(code) => r == Detect::Decided(spec_region_from_country(code)),
                None => {
                    &&& final(self).attempts() == old(self).attempts() + 1
                    &&& final(self).attempts() < 3 ==> final(self).wf() && r == Detect::Probe(
                        service_at(final(self).attempts() as int),
                    )
                    &&& final(self).attempts() == 3 ==> r == Detect::Decided(Region::Cn)
                },
            },
    {
        match outcome {
            Some(Some(c)) => Detect::Decided(region_from_country(Some(c.as_str()))),
            Some(None) => Detect::Decided(region_from_country(None)),
            None => {
                self.attempts = self.attempts + 1;
                if self.attempts == 1 {
                    Detect::Probe(IpService::IpInfo)
                } else if self.attempts == 2 {
                    Detect::Probe(IpService::IpSb)
                } else {
                    Detect::Decided(Region::Cn)
                }
            },
        }
    }
}

/// The outcome of running the detection over `outcomes`, one per service
/// asked, until it decides.
pub open spec fn run_detection(attempts: nat, outcomes: Seq<Option<Option<Seq<char>>>>) -> Region
    decreases 3 - attempts,
{
    if attempts >= 3 || outcomes.len() == 0 {
        Region::Cn
    } else {
        match outcomes[0] {
            Some(code) => spec_region_from_country(code),
            None => run_detection(attempts + 1, outcomes.drop_first()),
        }
    }
}

/// Detection settles on the answer of the first service that answers, or
/// on China where none of the three does.
pub proof fn lemma_detection_takes_first_answer(outcomes: Seq<Option<Option<Seq<char>>>>)
    requires
        outcomes.len() == 3,
    ensures
        run_detection(0, outcomes) == spec_detected_region(outcomes),
{
    assert(outcomes.drop_first().drop_first().drop_first().len() == 0);
    reveal_with_fuel(run_detection, 4);
    reveal_with_fuel(spec_detected_region, 4);
}

} // verus!
