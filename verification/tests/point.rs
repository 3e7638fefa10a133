use airgradient_monitor::aqi::compute_aqi;
use airgradient_monitor::point::{build_point, Field, FieldValue, OutputPoint};
use airgradient_monitor::reading::AirGradientData;
use airgradient_monitor::settings::{clone_pairs, InfluxSettings, SettingsPair};
use airgradient_monitor::tags::{merge_into, set_tag};
use airgradient_monitor::wire::point_builder;
use influxdb2::models::WriteDataPoint;

const FIXTURE: &str = r#"{
    "wifi": -46,
    "serialno": "ecda3b1eaaaf",
    "rco2": 447,
    "pm01": 3,
    "pm02": 12,
    "pm10": 27,
    "pm003Count": 1011,
    "atmp": 22.5,
    "rhum": 43,
    "atmpCompensated": 21.25,
    "rhumCompensated": 51,
    "tvocIndex": 50,
    "tvocRaw": 31000,
    "noxIndex": 1,
    "noxRaw": 16307,
    "boot": 6,
    "bootCount": 6,
    "ledMode": "co2",
    "firmware": "3.1.1",
    "model": "I-9PSL",
    "extra": "ignored"
}"#;

fn number(v: &serde_json::Value, name: &str) -> u32 {
    v[name].as_u64().unwrap() as u32
}

fn text(v: &serde_json::Value, name: &str) -> String {
    String::from(v[name].as_str().unwrap())
}

fn parsed() -> AirGradientData {
    let v: serde_json::Value = serde_json::from_str(FIXTURE).unwrap();
    AirGradientData {
        wifi: v["wifi"].as_i64().unwrap() as i32,
        serialno: text(&v, "serialno"),
        rco2: number(&v, "rco2"),
        pm01: number(&v, "pm01"),
        pm02: number(&v, "pm02"),
        pm10: number(&v, "pm10"),
        pm003_count: number(&v, "pm003Count"),
        atmp_bits: v["atmp"].as_f64().unwrap().to_bits(),
        rhum: number(&v, "rhum"),
        atmp_compensated_bits: v["atmpCompensated"].as_f64().unwrap().to_bits(),
        rhum_compensated: number(&v, "rhumCompensated"),
        tvoc_index: number(&v, "tvocIndex"),
        tvoc_raw: number(&v, "tvocRaw"),
        nox_index: number(&v, "noxIndex"),
        nox_raw: number(&v, "noxRaw"),
        boot: number(&v, "boot"),
        boot_count: number(&v, "bootCount"),
        led_mode: text(&v, "ledMode"),
        firmware: text(&v, "firmware"),
        model: text(&v, "model"),
    }
}

fn pair(key: &str, val: &str) -> SettingsPair {
    SettingsPair { key: String::from(key), val: String::from(val) }
}

fn tags_of(point: &OutputPoint) -> Vec<(String, String)> {
    point.tags.iter().map(|t| (t.key.clone(), t.val.clone())).collect()
}

fn owned(pairs: &[(&str, &str)]) -> Vec<(String, String)> {
    pairs.iter().map(|(k, v)| (String::from(*k), String::from(*v))).collect()
}

fn line_of(point: &OutputPoint) -> String {
    let built = point_builder(point).build().unwrap();
    let mut out: Vec<u8> = Vec::new();
    built.write_data_point_to(&mut out).unwrap();
    String::from_utf8(out).unwrap()
}

#[test]
fn point_has_the_twelve_fields_in_order() {
    let data = parsed();
    let point = build_point(&data, 55, &Vec::new(), 42);
    let fields: Vec<(String, FieldValue)> =
        point.fields.iter().map(|f| (f.name.clone(), f.value)).collect();
    let expected: Vec<(String, FieldValue)> = vec![
        (String::from("rco2"), FieldValue::Integer(447)),
        (String::from("pm01"), FieldValue::Integer(3)),
        (String::from("pm02"), FieldValue::Integer(12)),
        (String::from("pm10"), FieldValue::Integer(27)),
        (String::from("pm003Count"), FieldValue::Integer(1011)),
        (String::from("temp"), FieldValue::DoubleBits(21.25f64.to_bits())),
        (String::from("humidity"), FieldValue::Integer(51)),
        (String::from("tvoc"), FieldValue::Integer(31000)),
        (String::from("tvocIndex"), FieldValue::Integer(50)),
        (String::from("nox"), FieldValue::Integer(16307)),
        (String::from("noxIndex"), FieldValue::Integer(1)),
        (String::from("aqi"), FieldValue::Integer(55)),
    ];
    assert_eq!(fields, expected);
    assert_eq!(point.measurement, "airgradient");
    assert_eq!(point.timestamp, 42);
}

#[test]
fn coarse_dust_field_comes_from_the_coarse_dust_reading() {
    let mut data = parsed();
    data.pm02 = 5;
    data.pm10 = 77;
    let point = build_point(&data, 1, &Vec::new(), 0);
    assert_eq!(point.fields[2].name, "pm02");
    assert_eq!(point.fields[2].value, FieldValue::Integer(5));
    assert_eq!(point.fields[3].name, "pm10");
    assert_eq!(point.fields[3].value, FieldValue::Integer(77));
}

#[test]
fn largest_readings_fit_their_fields() {
    let mut data = parsed();
    data.rco2 = u32::MAX;
    let point = build_point(&data, u32::MAX, &Vec::new(), i64::MIN);
    assert_eq!(point.fields[0].value, FieldValue::Integer(4294967295));
    assert_eq!(point.fields[11].value, FieldValue::Integer(4294967295));
    assert_eq!(point.timestamp, i64::MIN);
}

#[test]
fn fixture_gives_identity_tags_and_static_tags() {
    let data = parsed();
    let cfg = vec![pair("room", "office"), pair("floor", "2")];
    let point = build_point(&data, compute_aqi(&data), &cfg, 42);
    assert_eq!(
        tags_of(&point),
        owned(&[
            ("firmware", "3.1.1"),
            ("model", "I-9PSL"),
            ("serialno", "ecda3b1eaaaf"),
            ("room", "office"),
            ("floor", "2"),
        ])
    );
    assert_eq!(point.fields[11].value, FieldValue::Integer(55));
}

#[test]
fn without_static_tags_only_the_identity_tags_remain() {
    let point = build_point(&parsed(), 55, &Vec::new(), 42);
    assert_eq!(
        tags_of(&point),
        owned(&[("firmware", "3.1.1"), ("model", "I-9PSL"), ("serialno", "ecda3b1eaaaf")])
    );
}

#[test]
fn static_tag_takes_the_place_of_an_identity_tag_with_its_key() {
    let cfg = vec![pair("model", "custom"), pair("room", "office")];
    let point = build_point(&parsed(), 55, &cfg, 42);
    assert_eq!(
        tags_of(&point),
        owned(&[
            ("firmware", "3.1.1"),
            ("model", "custom"),
            ("serialno", "ecda3b1eaaaf"),
            ("room", "office"),
        ])
    );
}

#[test]
fn later_static_tag_wins_over_an_earlier_one() {
    let cfg = vec![pair("room", "office"), pair("floor", "2"), pair("room", "lab")];
    let point = build_point(&parsed(), 55, &cfg, 42);
    assert_eq!(
        tags_of(&point),
        owned(&[
            ("firmware", "3.1.1"),
            ("model", "I-9PSL"),
            ("serialno", "ecda3b1eaaaf"),
            ("room", "lab"),
            ("floor", "2"),
        ])
    );
}

#[test]
fn no_tag_key_occurs_twice() {
    let cfg = vec![
        pair("serialno", "a"),
        pair("serialno", "b"),
        pair("firmware", "c"),
        pair("x", "1"),
        pair("x", "2"),
    ];
    let point = build_point(&parsed(), 55, &cfg, 42);
    let mut keys: Vec<String> = point.tags.iter().map(|t| t.key.clone()).collect();
    let n = keys.len();
    keys.sort();
    keys.dedup();
    assert_eq!(keys.len(), n);
    assert_eq!(keys, vec!["firmware", "model", "serialno", "x"]);
}

#[test]
fn set_tag_appends_a_new_key() {
    let mut tags = vec![pair("a", "1")];
    set_tag(&mut tags, pair("b", "2"));
    let got: Vec<(String, String)> = tags.iter().map(|t| (t.key.clone(), t.val.clone())).collect();
    assert_eq!(got, owned(&[("a", "1"), ("b", "2")]));
}

#[test]
fn set_tag_replaces_an_old_key_in_place() {
    let mut tags = vec![pair("a", "1"), pair("b", "2"), pair("c", "3")];
    set_tag(&mut tags, pair("b", "9"));
    let got: Vec<(String, String)> = tags.iter().map(|t| (t.key.clone(), t.val.clone())).collect();
    assert_eq!(got, owned(&[("a", "1"), ("b", "9"), ("c", "3")]));
}

#[test]
fn set_tag_on_an_empty_list() {
    let mut tags: Vec<SettingsPair> = Vec::new();
    set_tag(&mut tags, pair("a", "1"));
    assert_eq!(tags.len(), 1);
    assert_eq!(tags[0].key, "a");
    assert_eq!(tags[0].val, "1");
}

#[test]
fn merge_into_sets_each_pair_in_turn() {
    let mut tags = vec![pair("a", "1"), pair("b", "2")];
    merge_into(&mut tags, &vec![pair("c", "3"), pair("a", "4"), pair("c", "5")]);
    let got: Vec<(String, String)> = tags.iter().map(|t| (t.key.clone(), t.val.clone())).collect();
    assert_eq!(got, owned(&[("a", "4"), ("b", "2"), ("c", "5")]));
}

#[test]
fn merge_into_with_nothing_changes_nothing() {
    let mut tags = vec![pair("a", "1")];
    merge_into(&mut tags, &Vec::new());
    assert_eq!(tags.len(), 1);
    assert_eq!(tags[0].val, "1");
}

#[test]
fn cloned_pairs_and_settings_are_equal_to_their_source() {
    let tags = vec![pair("a", "1"), pair("b", "2")];
    let copy = clone_pairs(&tags);
    assert_eq!(copy.len(), 2);
    assert_eq!(copy[1].key, "b");
    assert_eq!(copy[1].val, "2");
    let cfg = InfluxSettings {
        enable: true,
        token: String::from("SECRET-REDACTED"),
        bucket: String::from("air"),
        org: String::from("home"),
        url: String::from("http://localhost:8086"),
        tags,
    };
    let again = cfg.clone();
    assert_eq!(again.enable, cfg.enable);
    assert_eq!(again.token, cfg.token);
    assert_eq!(again.bucket, cfg.bucket);
    assert_eq!(again.org, cfg.org);
    assert_eq!(again.url, cfg.url);
    assert_eq!(again.tags[0].key, "a");
    assert_eq!(again.tags[0].clone().val, "1");
}

#[test]
fn builder_writes_integer_fields_tags_and_timestamp() {
    let cfg = vec![pair("room", "office")];
    let point = build_point(&parsed(), 55, &cfg, 1700000000000000000);
    assert_eq!(
        line_of(&point),
        "airgradient,firmware=3.1.1,model=I-9PSL,room=office,serialno=ecda3b1eaaaf \
         aqi=55i,humidity=51i,nox=16307i,noxIndex=1i,pm003Count=1011i,pm01=3i,pm02=12i,\
         pm10=27i,rco2=447i,tvoc=31000i,tvocIndex=50i 1700000000000000000\n"
    );
}

#[test]
fn builder_takes_the_number_fields_from_the_caller() {
    let point = build_point(&parsed(), 55, &Vec::new(), 5);
    let mut builder = point_builder(&point);
    for f in &point.fields {
        if let FieldValue::DoubleBits(bits) = f.value {
            builder = builder.field(f.name.clone(), f64::from_bits(bits));
        }
    }
    let mut out: Vec<u8> = Vec::new();
    builder.build().unwrap().write_data_point_to(&mut out).unwrap();
    assert_eq!(
        String::from_utf8(out).unwrap(),
        "airgradient,firmware=3.1.1,model=I-9PSL,serialno=ecda3b1eaaaf \
         aqi=55i,humidity=51i,nox=16307i,noxIndex=1i,pm003Count=1011i,pm01=3i,pm02=12i,\
         pm10=27i,rco2=447i,temp=21.25,tvoc=31000i,tvocIndex=50i 5\n"
    );
}

#[test]
fn builder_keeps_the_later_of_two_fields_or_tags_with_one_name() {
    let point = OutputPoint {
        measurement: String::from("m"),
        fields: vec![
            Field { name: String::from("a"), value: FieldValue::Integer(1) },
            Field { name: String::from("b"), value: FieldValue::Integer(-2) },
            Field { name: String::from("a"), value: FieldValue::Integer(3) },
        ],
        tags: vec![pair("k", "v"), pair("k", "w")],
        timestamp: -1,
    };
    assert_eq!(line_of(&point), "m,k=w a=3i,b=-2i -1\n");
}
