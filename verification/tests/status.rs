use rfc2544::status::{handle_test_result, online, Asic, Experiment, Online};

#[test]
fn online_reports_the_chip_and_the_mode() {
    assert_eq!(
        online(false, true, "2.3.1".to_string()),
        Online {
            status: "online".to_string(),
            version: "2.3.1".to_string(),
            asic: Asic::Tofino1,
            loopback: true,
        }
    );
    assert_eq!(online(true, false, String::new()).asic, Asic::Tofino2);
    assert!(!online(true, false, String::new()).loopback);
}

#[test]
fn only_status_200_is_a_success() {
    assert_eq!(handle_test_result(&Ok(200)), Ok(()));
    assert_eq!(handle_test_result(&Ok(500)), Err(()));
    assert_eq!(handle_test_result(&Ok(201)), Err(()));
    assert_eq!(handle_test_result(&Ok(0)), Err(()));
    assert_eq!(handle_test_result(&Err("no answer".to_string())), Err(()));
}

#[test]
fn experiment_keeps_its_start_time() {
    let mut experiment = Experiment::new(100);
    assert_eq!(experiment, Experiment { start: 100, running: false });
    assert_eq!(experiment.elapsed(150), 0);
    experiment.begin(120);
    assert_eq!(experiment, Experiment { start: 120, running: true });
    assert_eq!(experiment.elapsed(150), 30);
    assert_eq!(experiment.elapsed(110), 0);
    experiment.end();
    assert_eq!(experiment, Experiment { start: 120, running: false });
    assert_eq!(experiment.elapsed(150), 0);
}
