use mbus_httpd::models::{Address, Baudrate, Device, Hat, MbusData, Slaves, TextError, Yaml};

fn all_rates() -> Vec<(Baudrate, u32, &'static str)> {
    vec![
        (Baudrate::_300, 300, "300"),
        (Baudrate::_600, 600, "600"),
        (Baudrate::_1200, 1200, "1200"),
        (Baudrate::_2400, 2400, "2400"),
        (Baudrate::_4800, 4800, "4800"),
        (Baudrate::_9600, 9600, "9600"),
    ]
}

#[test]
fn baudrate_text_and_value() {
    for (rate, value, text) in all_rates() {
        assert_eq!(rate.value(), value);
        assert_eq!(rate.as_str(), text);
        assert_eq!(rate.to_string(), text);
        assert_eq!(rate.to_string(), value.to_string());
    }
}

#[test]
fn baudrate_is_read_from_its_text() {
    for (rate, _, text) in all_rates() {
        assert_eq!(Baudrate::from_str(text), Ok(rate));
        assert_eq!(Baudrate::from_str(&rate.to_string()), Ok(rate));
    }
}

#[test]
fn baudrate_rejects_everything_else() {
    for text in [
        "", "0", "30", "3000", "301", "1201", "19200", "115200", " 300", "300 ", "+300", "0300",
        "2400\n", "9600\0", "three hundred", "_300",
    ] {
        assert_eq!(Baudrate::from_str(text), Err(()), "rate {:?}", text);
    }
}

#[test]
fn baudrate_rejects_every_other_number() {
    let known = [300u32, 600, 1200, 2400, 4800, 9600];
    for n in 0u32..20000 {
        let text = n.to_string();
        assert_eq!(Baudrate::from_str(&text).is_ok(), known.contains(&n), "rate {}", n);
    }
}

#[test]
fn baudrates_are_ordered_by_rate() {
    let rates = all_rates();
    for i in 0..rates.len() {
        for j in 0..rates.len() {
            assert_eq!(rates[i].0 < rates[j].0, rates[i].1 < rates[j].1);
            assert_eq!(rates[i].0 == rates[j].0, i == j);
        }
    }
}

#[test]
fn new_hat_has_no_field() {
    let hat = Hat::new();
    assert_eq!(hat.product, None);
    assert_eq!(hat.product_id, None);
    assert_eq!(hat.product_ver, None);
    assert_eq!(hat.uuid, None);
    assert_eq!(hat.vendor, None);
}

#[test]
fn address_converts_to_and_from_its_number() {
    for n in [0, 1, 48, 255, -1, i32::MAX, i32::MIN] {
        let address = Address::from(n);
        assert_eq!(*address, n);
        assert_eq!(i32::from(address.clone()), n);
        assert_eq!(address, Address::from(n));
    }
    let mut address = Address::from(7);
    *address = 9;
    assert_eq!(i32::from(address), 9);
    assert!(Address::from(1) < Address::from(2));
}

#[test]
fn device_converts_to_and_from_its_text() {
    let device = Device::from("ttyAMA0".to_string());
    assert_eq!(*device, "ttyAMA0");
    assert_eq!(device.len(), 7);
    assert_eq!(String::from(device.clone()), "ttyAMA0");
    let mut device = device;
    device.push_str("x");
    assert_eq!(String::from(device), "ttyAMA0x");
}

#[test]
fn text_newtypes_convert_to_and_from_their_text() {
    let data = MbusData::from("<MBusData/>".to_string());
    assert_eq!(*data, "<MBusData/>");
    assert_eq!(String::from(data), "<MBusData/>");

    let slaves = Slaves::from("<Slaves/>".to_string());
    assert_eq!(*slaves, "<Slaves/>");
    assert_eq!(String::from(slaves), "<Slaves/>");

    let error = TextError::from("oops".to_string());
    assert_eq!(*error, "oops");
    assert_eq!(String::from(error), "oops");

    let mut yaml = Yaml::from("a: 1".to_string());
    yaml.push_str("\nb: 2");
    assert_eq!(*yaml, "a: 1\nb: 2");
    assert_eq!(String::from(yaml), "a: 1\nb: 2");
}

#[test]
fn baudrate_parses_from_text() {
    assert_eq!("2400".parse::<Baudrate>(), Ok(Baudrate::_2400));
    assert_eq!("9600".parse::<Baudrate>(), Ok(Baudrate::_9600));
    assert_eq!("2401".parse::<Baudrate>(), Err(()));
    assert_eq!("".parse::<Baudrate>(), Err(()));
}
