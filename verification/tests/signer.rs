use icloudpd_optimizer::signer::parse_designated_requirement;

#[test]
fn designated_requirement_parser_requires_exact_canonical_apple_development_team_dr() {
    let canonical = "designated => anchor apple generic and identifier \"com.icloudpd-optimizer.helper\" and certificate leaf[subject.OU] = \"ABCDEFGHIJ\"";
    let requirement = format!("Executable=/sealed/helper\n{canonical}\n");
    assert_eq!(
        parse_designated_requirement(requirement.as_bytes(), b"").unwrap(),
        canonical
    );
    assert_eq!(
        parse_designated_requirement(b"", requirement.as_bytes()).unwrap(),
        canonical
    );
    for malformed in [
        "designated => anchor apple generic and identifier \"wrong\" and certificate leaf[subject.OU] = \"ABCDEFGHIJ\"",
        "designated => anchor apple generic and identifier \"com.icloudpd-optimizer.helper\" and certificate leaf[subject.OU] = \"abcDEFGHIJ\"",
        "designated => anchor apple generic and identifier \"com.icloudpd-optimizer.helper\" and certificate leaf[subject.OU] = \"ABCDEFGHIJ\" and certificate root = H\"abcd\"",
        "designated => certificate root = H\"abcd\" and identifier \"com.icloudpd-optimizer.helper\"",
    ] {
        assert_eq!(
            parse_designated_requirement(format!("{malformed}\n").as_bytes(), b"")
                .unwrap_err()
                .category(),
            "recovery_signer"
        );
    }
    assert!(
        parse_designated_requirement(format!("{canonical}\n{canonical}\n").as_bytes(), b"")
            .is_err()
    );
}
