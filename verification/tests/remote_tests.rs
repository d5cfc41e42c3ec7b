use epmon::remote::{buffer_words, RemoteData};

#[test]
fn taking_a_voltage_batch_leaves_no_data_behind() {
    for make in [
        RemoteData::BatteryVoltage as fn(Vec<u16>) -> RemoteData,
        RemoteData::BatteryPackVoltage,
        RemoteData::PVVoltage,
    ] {
        let mut data = make(vec![10, 20, 30]);
        let taken = data.take_adc_readings();
        assert_eq!(taken, vec![10, 20, 30]);
        assert_eq!(data, RemoteData::NoData);
        // A second take yields nothing: the batch is delivered once.
        assert_eq!(data.take_adc_readings(), Vec::<u16>::new());
        assert_eq!(data, RemoteData::NoData);
    }
}

#[test]
fn taking_a_power_batch_leaves_no_data_behind() {
    let mut data = RemoteData::PVPower(vec![7, 8]);
    let taken = data.take_power_readings();
    assert_eq!(taken, vec![7, 8]);
    assert_eq!(data, RemoteData::NoData);
    assert_eq!(data.take_power_readings(), Vec::<u16>::new());
}

#[test]
fn take_operations_ignore_the_wrong_series() {
    // A power batch is not a voltage batch: taking voltages discards it.
    let mut data = RemoteData::PVPower(vec![7]);
    assert_eq!(data.take_adc_readings(), Vec::<u16>::new());
    assert_eq!(data, RemoteData::NoData);

    let mut data = RemoteData::BatteryVoltage(vec![7]);
    assert_eq!(data.take_power_readings(), Vec::<u16>::new());
    assert_eq!(data, RemoteData::NoData);

    let mut data = RemoteData::VoltageIntervalms(20);
    assert_eq!(data.take_adc_readings(), Vec::<u16>::new());
    assert_eq!(data, RemoteData::NoData);
}

#[test]
fn buffer_words_pairs_bytes_in_native_order() {
    let words = buffer_words(&[1, 0, 2, 0]);
    assert_eq!(words.len(), 2);
    assert!(words == vec![1, 2] || words == vec![256, 512]);

    // An odd block is padded with one zero byte.
    let words = buffer_words(&[0xAB]);
    assert_eq!(words.len(), 1);
    assert!(words == vec![0x00AB] || words == vec![0xAB00]);

    assert_eq!(buffer_words(&[]).len(), 0);

    let zeros = buffer_words(&[0, 0, 0, 0, 0, 0]);
    assert_eq!(zeros, vec![0, 0, 0]);
}

#[test]
fn default_remote_data_is_no_data() {
    assert_eq!(RemoteData::default(), RemoteData::NoData);
}
