use tako_desktop::region::{
    get_bun_download_url, mirror_label, region_from_country, Arch, Detect, IpService, Os,
    Platform, Region, RegionDetection, DEFAULT_BUN_VERSION,
};

#[test]
fn download_url_for_china_mirror() {
    let p = Platform { os: Os::MacOs, arch: Arch::Aarch64 };
    assert_eq!(
        get_bun_download_url(Region::Cn, DEFAULT_BUN_VERSION, p),
        "https://registry.npmmirror.com/-/binary/bun/bun-v1.2.5/bun-darwin-aarch64.zip"
    );
}

#[test]
fn download_url_for_github() {
    let p = Platform { os: Os::Linux, arch: Arch::X64 };
    assert_eq!(
        get_bun_download_url(Region::Global, "1.2.5", p),
        "https://github.com/oven-sh/bun/releases/download/bun-v1.2.5/bun-linux-x64.zip"
    );
    let w = Platform { os: Os::Windows, arch: Arch::X64 };
    assert_eq!(
        get_bun_download_url(Region::Global, "2.0.0", w),
        "https://github.com/oven-sh/bun/releases/download/bun-v2.0.0/bun-windows-x64.zip"
    );
}

#[test]
fn mirror_labels() {
    assert_eq!(mirror_label(Region::Cn), "China mirror (npmmirror.com)");
    assert_eq!(mirror_label(Region::Global), "Global (github.com)");
}

#[test]
fn country_code_cn_means_china() {
    assert_eq!(region_from_country(Some("CN")), Region::Cn);
    assert_eq!(region_from_country(Some("US")), Region::Global);
    assert_eq!(region_from_country(Some("cn")), Region::Global);
    assert_eq!(region_from_country(None), Region::Global);
}

#[test]
fn service_addresses() {
    assert_eq!(IpService::IpApi.url(), "http://ip-api.com/json/?fields=countryCode");
    assert_eq!(IpService::IpInfo.url(), "https://ipinfo.io/json");
    assert_eq!(IpService::IpSb.url(), "https://api.ip.sb/geoip");
}

#[test]
fn detection_takes_first_answer() {
    let (mut d, first) = RegionDetection::start();
    assert_eq!(first, Detect::Probe(IpService::IpApi));
    assert_eq!(d.step(&None), Detect::Probe(IpService::IpInfo));
    assert_eq!(d.step(&Some(Some("CN".to_string()))), Detect::Decided(Region::Cn));
}

#[test]
fn detection_answer_without_code_is_global() {
    let (mut d, _) = RegionDetection::start();
    assert_eq!(d.step(&Some(None)), Detect::Decided(Region::Global));
}

#[test]
fn detection_defaults_to_china_when_nobody_answers() {
    let (mut d, _) = RegionDetection::start();
    assert_eq!(d.step(&None), Detect::Probe(IpService::IpInfo));
    assert_eq!(d.step(&None), Detect::Probe(IpService::IpSb));
    assert_eq!(d.step(&None), Detect::Decided(Region::Cn));
}
