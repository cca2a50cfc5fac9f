use suitcase::packages;

#[test]
fn parse_package_line_reads_name_and_version() {
    let p = packages::parse_package_line("suitcase v0.5.2:").unwrap();
    assert_eq!(p.name, "suitcase");
    assert_eq!(p.version, "0.5.2");
    assert_eq!(p.path, None);
}

#[test]
fn parse_package_line_reads_the_local_path() {
    let p = packages::parse_package_line("suitcase v0.5.2 (/home/me/suitcase):").unwrap();
    assert_eq!(p.name, "suitcase");
    assert_eq!(p.version, "0.5.2");
    assert_eq!(p.path, Some("/home/me/suitcase".to_string()));
}

#[test]
fn parse_package_line_refuses_short_lines() {
    assert!(packages::parse_package_line("suitcase").is_none());
    assert!(packages::parse_package_line("").is_none());
}

#[test]
fn parse_installed_packages_keeps_only_package_lines() {
    let listing = "\
cargo-edit v0.12.0:
    cargo-add
    cargo-rm
suitcase v0.5.2 (/home/me/suitcase):
    gho
    suitcase
";
    let ps = packages::parse_installed_packages(listing).unwrap();
    assert_eq!(ps.len(), 2);
    assert_eq!(ps[0].name, "cargo-edit");
    assert_eq!(ps[0].version, "0.12.0");
    assert_eq!(ps[0].path, None);
    assert_eq!(ps[1].name, "suitcase");
    assert_eq!(ps[1].path, Some("/home/me/suitcase".to_string()));
}

#[test]
fn parse_installed_packages_fails_on_a_malformed_package_line() {
    let listing = "good v1.0.0:\nbad\n";
    assert!(packages::parse_installed_packages(listing).is_none());
}

#[test]
fn parse_installed_packages_of_empty_listing_is_empty() {
    let ps = packages::parse_installed_packages("").unwrap();
    assert!(ps.is_empty());
}

#[test]
fn find_package_finds_by_name() {
    let listing = "alpha v1.0.0:\nbeta v2.0.0 (/work/beta):\n";
    let ps = packages::parse_installed_packages(listing).unwrap();
    let beta = packages::find_package(&ps, "beta").unwrap();
    assert_eq!(beta.version, "2.0.0");
    assert_eq!(beta.path, Some("/work/beta".to_string()));
    assert!(packages::find_package(&ps, "gamma").is_none());
}
