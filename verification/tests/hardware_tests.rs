use irock_programmer::HardwareType;

#[test]
fn repo_mapping_is_fixed() {
    assert_eq!(HardwareType::IRock424.repo(), "Arvernus/iRock-424");
    assert_eq!(HardwareType::IRock212.repo(), "Arvernus/iRock-212");
    assert_eq!(HardwareType::IRock200.repo(), "Arvernus/iRock-200-300-400");
    assert_eq!(HardwareType::IRock300.repo(), "Arvernus/iRock-200-300-400");
    assert_eq!(HardwareType::IRock400.repo(), "Arvernus/iRock-200-300-400");
}

#[test]
fn all_lists_every_model_once() {
    let all = HardwareType::all();
    assert_eq!(
        all,
        vec![
            HardwareType::IRock424,
            HardwareType::IRock212,
            HardwareType::IRock200,
            HardwareType::IRock300,
            HardwareType::IRock400,
        ]
    );
}

#[test]
fn display_names() {
    assert_eq!(HardwareType::IRock424.display_name(), "iRock 424");
    assert_eq!(HardwareType::IRock212.display_name(), "iRock 212");
    assert_eq!(HardwareType::IRock200.display_name(), "iRock 200");
    assert_eq!(HardwareType::IRock300.display_name(), "iRock 300");
    assert_eq!(HardwareType::IRock400.display_name(), "iRock 400");
}
