use mac_cli::bluetooth::BluetoothController;
use mac_cli::music::MusicController;
use mac_cli::text::trimmed;
use mac_cli::volume::VolumeController;
use mac_cli::weather::WeatherController;

#[test]
fn playback_scripts() {
    assert_eq!(MusicController::play(), "tell application \"Music\" to play");
    assert_eq!(MusicController::pause(), "tell application \"Music\" to pause");
    assert_eq!(MusicController::next(), "tell application \"Music\" to next track");
    assert_eq!(MusicController::previous(), "tell application \"Music\" to previous track");
    assert!(MusicController::current().contains("return \"Not playing\""));
    assert!(MusicController::playlists().contains("set playlistNames to name of playlists"));
}

#[test]
fn playlist_script_quotes_name() {
    assert_eq!(
        MusicController::play_playlist("Road Trip"),
        "tell application \"Music\" to play playlist named \"Road Trip\""
    );
}

#[test]
fn playing_state() {
    assert!(MusicController::is_playing("playing"));
    assert!(!MusicController::is_playing("paused"));
    assert!(!MusicController::is_playing("Playing"));
    assert!(!MusicController::is_playing(""));
}

#[test]
fn playlists_are_split_trimmed_and_filtered() {
    assert_eq!(
        MusicController::list_playlists("Library, Favourites,  Chill Mix , , 90s"),
        vec!["Library", "Favourites", "Chill Mix", "90s"]
    );
    assert_eq!(MusicController::list_playlists("Solo"), vec!["Solo"]);
    assert!(MusicController::list_playlists("").is_empty());
    assert!(MusicController::list_playlists(", ").is_empty());
    assert_eq!(MusicController::list_playlists("a,b, c"), vec!["a,b", "c"]);
}

#[test]
fn trimming_uses_unicode_whitespace() {
    assert_eq!(trimmed("  \t hello world \n"), "hello world");
    assert_eq!(trimmed("\u{3000}x\u{a0}"), "x");
    assert_eq!(trimmed("   "), "");
}

#[test]
fn volume_controller_builds() {
    assert!(VolumeController::new().is_ok());
}

#[test]
fn weather_urls() {
    assert_eq!(
        WeatherController::weather_url(Some("San Francisco")),
        "https://wttr.in/San+Francisco?format=3&m"
    );
    assert_eq!(
        WeatherController::weather_url(Some("London, UK")),
        "https://wttr.in/London,+UK?format=3&m"
    );
    assert_eq!(WeatherController::weather_url(None), "https://wttr.in/?format=3&m");
}

#[test]
fn weather_reports() {
    assert_eq!(
        WeatherController::weather_report("London: +12°C\n"),
        Ok("London: +12°C".to_string())
    );
    assert_eq!(
        WeatherController::weather_report(" \n"),
        Err("No weather data received".to_string())
    );
}

#[test]
fn bluetooth_report_device_names() {
    let report = "Bluetooth:\n\n      Bluetooth Controller:\n          Address: AA:BB\n          State: On\n      Connected:\n          AirPods Pro:\n              Address: 11:22\n      Not Connected:\n          Magic Keyboard::\n          Services:\n          Paired Devices:\n          x:\r\n          :\n";
    assert_eq!(
        BluetoothController::list_devices_simple(report),
        vec!["AirPods Pro", "Magic Keyboard", "x"]
    );
    assert!(BluetoothController::list_devices_simple("").is_empty());
    assert_eq!(BluetoothController::list_devices_simple("::"), vec![""]);
}

#[test]
fn volume_scripts() {
    assert_eq!(VolumeController::volume_script(), "output volume of (get volume settings)");
    assert_eq!(VolumeController::set_script(45), "set volume output volume 45");
    assert_eq!(VolumeController::set_script(0), "set volume output volume 0");
    assert_eq!(VolumeController::set_script(100), "set volume output volume 100");
}
