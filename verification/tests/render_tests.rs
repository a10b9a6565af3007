use tabled::settings::Style;
use weather_cli::request::current_url;

fn current_fixture() -> serde_json::Value {
    let body = "{\"location\":{\"name\":\"London\",\"region\":\"City of London, Greater London\",\"country\":\"United Kingdom\",\"lat\":51.52,\"lon\":-0.11,\"tz_id\":\"Europe/London\",\"localtime_epoch\":1760180400,\"localtime\":\"2026-10-11 12:00\"},\"current\":{\"last_updated_epoch\":1760180400,\"last_updated\":\"2026-10-11 12:00\",\"temp_c\":11.4,\"temp_f\":52.5,\"is_day\":1,\"condition\":{\"text\":\"Partly cloudy\",\"icon\":\"//cdn.weatherapi.com/weather/64x64/day/116.png\",\"code\":1003},\"wind_mph\":9.4,\"humidity\":71,\"cloud\":50}}";
    serde_json::from_str(body).expect("the fixture is valid JSON")
}

/// The whole current-conditions flow short of the network: the URL the
/// library builds for the query, and the response body rendered as a
/// rounded-border table, as the top level prints it.
#[test]
fn current_renders_a_table_with_location_and_temperature() {
    let url = current_url("KEY", "London");
    assert_eq!(url, "https://api.weatherapi.com/v1/current.json?q=London&key=KEY");

    let response = current_fixture();
    let table = json_to_table::json_to_table(&response).with(Style::rounded()).to_string();
    assert!(table.contains("location"));
    assert!(table.contains("London"));
    assert!(table.contains("current"));
    assert!(table.contains("temp_c"));
    assert!(table.contains("11.4"));
    assert!(table.contains("temp_f"));
    assert!(table.contains("52.5"));
}
