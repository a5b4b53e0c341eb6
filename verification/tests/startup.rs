use bevy_easy_config::coordinator::{assets_directory, failure_message};
use bevy_easy_config::{
    add_asset_to_config_file_holder, update_resource, AssetEvent, ConfigFileHolder,
    ConfigFileLoaderError, Delivery, EasyConfigPlugin, FileOutcome, LoadHandle, StartupAction,
    StartupEvent,
};
use serde::de::{Deserialize, Deserializer, Error, MapAccess, Visitor};
use std::fmt;

#[derive(Clone, Copy, Debug, PartialEq)]
enum Key {
    Space,
    Enter,
}

#[derive(Clone, Debug, PartialEq)]
struct Settings {
    action_keybind: Key,
}

struct FieldName(String);

struct FieldNameVisitor;

impl<'de> Visitor<'de> for FieldNameVisitor {
    type Value = FieldName;

    fn expecting(&self, f: &mut fmt::Formatter) -> fmt::Result {
        f.write_str("a field name")
    }

    fn visit_str<E: Error>(self, name: &str) -> Result<FieldName, E> {
        Ok(FieldName(name.to_string()))
    }
}

impl<'de> Deserialize<'de> for FieldName {
    fn deserialize<D: Deserializer<'de>>(deserializer: D) -> Result<Self, D::Error> {
        deserializer.deserialize_identifier(FieldNameVisitor)
    }
}

struct SettingsVisitor;

impl<'de> Visitor<'de> for SettingsVisitor {
    type Value = Settings;

    fn expecting(&self, f: &mut fmt::Formatter) -> fmt::Result {
        f.write_str("settings between braces")
    }

    fn visit_map<M: MapAccess<'de>>(self, mut map: M) -> Result<Settings, M::Error> {
        let mut action_keybind = None;
        while let Some(FieldName(name)) = map.next_key()? {
            if name != "action_keybind" {
                return Err(M::Error::custom(format!("unknown field {name}")));
            }
            let key: String = map.next_value()?;
            action_keybind = Some(match key.as_str() {
                "Space" => Key::Space,
                "Enter" => Key::Enter,
                _ => return Err(M::Error::custom(format!("unknown key {key}"))),
            });
        }
        match action_keybind {
            Some(action_keybind) => Ok(Settings { action_keybind }),
            None => Err(M::Error::custom("missing field action_keybind")),
        }
    }
}

impl<'de> Deserialize<'de> for Settings {
    fn deserialize<D: Deserializer<'de>>(deserializer: D) -> Result<Self, D::Error> {
        deserializer.deserialize_map(SettingsVisitor)
    }
}

/// What a host does with a file it could read: hand the bytes to the decoder.
fn read_and_decode(contents: &str) -> FileOutcome<Settings> {
    Ok(ron::de::from_bytes::<Settings>(contents.as_bytes()))
}

fn missing_file() -> FileOutcome<Settings> {
    Err(std::io::Error::new(std::io::ErrorKind::NotFound, "no such file"))
}

/// Runs start-up the way a host does: performs each action the library asks
/// for and reports back, until the library is finished or reports an error.
fn start_up(
    holder: &mut ConfigFileHolder<Settings>,
    config: &mut Option<Settings>,
    contents: Option<&str>,
    key: LoadHandle,
) -> Result<Vec<StartupAction>, ConfigFileLoaderError> {
    let mut actions = Vec::new();
    let mut event = StartupEvent::Begin;
    loop {
        let action = add_asset_to_config_file_holder(holder, config, event)?;
        actions.push(action);
        event = match action {
            StartupAction::ReadConfigFile => StartupEvent::FileLoaded(match contents {
                Some(contents) => read_and_decode(contents),
                None => missing_file(),
            }),
            StartupAction::RequestTrackedLoad => StartupEvent::LoadTracked(key),
            StartupAction::Finished => return Ok(actions),
        };
    }
}

#[test]
fn startup_publishes_the_decoded_file() {
    let registration = EasyConfigPlugin::<Settings>::new("settings.cfg").build();
    let mut holder = registration.holder;
    let mut config = registration.config;
    assert_eq!(config, None);

    let actions = start_up(
        &mut holder,
        &mut config,
        Some("{ action_keybind: \"Space\" }"),
        LoadHandle::Index(3),
    )
    .unwrap();

    assert_eq!(
        actions,
        vec![
            StartupAction::ReadConfigFile,
            StartupAction::RequestTrackedLoad,
            StartupAction::Finished
        ]
    );
    assert_eq!(config, Some(Settings { action_keybind: Key::Space }));
    assert_eq!(holder.handle(), Some(LoadHandle::Index(3)));
    assert_eq!(holder.path(), "settings.cfg");
}

#[test]
fn saved_file_replaces_the_value_after_one_cycle() {
    let registration = EasyConfigPlugin::<Settings>::new("settings.cfg").build();
    let mut holder = registration.holder;
    let mut config = registration.config;
    let key = LoadHandle::Index(3);
    start_up(&mut holder, &mut config, Some("{ action_keybind: \"Space\" }"), key).unwrap();
    assert_eq!(config.as_ref().unwrap().action_keybind, Key::Space);

    // The file is rewritten; the host decodes it again, files the value under
    // the same key and announces the change.
    let reloaded = ron::de::from_bytes::<Settings>(b"{ action_keybind: \"Enter\" }").unwrap();
    let event = AssetEvent::Modified { id: holder.handle().unwrap() };
    update_resource(&mut config, vec![Delivery { event, found: Some(reloaded) }]);

    assert_eq!(config.as_ref().unwrap().action_keybind, Key::Enter);
    assert_eq!(holder.handle(), Some(key));
}

#[test]
fn invalid_syntax_at_startup_is_reported_with_its_position() {
    let registration = EasyConfigPlugin::<Settings>::new("settings.cfg").build();
    let mut holder = registration.holder;
    let mut config = registration.config;

    let result = start_up(
        &mut holder,
        &mut config,
        Some("{ action_keybind: \"Space\"\n  oops"),
        LoadHandle::Index(3),
    );

    let error = result.unwrap_err();
    let position = match &error {
        ConfigFileLoaderError::RonError(spanned) => spanned.position,
        other => panic!("expected a decoding error, got {other:?}"),
    };
    assert_eq!((position.line, position.col), (2, 3));
    assert_eq!(error.message(), format!("Could not parse RON: {}", ron_error_text(&error)));
    assert!(error.message().starts_with("Could not parse RON: 2:3: "));
    assert_eq!(
        failure_message(&holder, &error),
        format!("settings.cfg: {}", error.message())
    );
    // Nothing was published and no load was requested.
    assert_eq!(config, None);
    assert_eq!(holder.handle(), None);
}

fn ron_error_text(error: &ConfigFileLoaderError) -> String {
    match error {
        ConfigFileLoaderError::RonError(spanned) => spanned.to_string(),
        other => panic!("expected a decoding error, got {other:?}"),
    }
}

#[test]
fn unreadable_file_at_startup_is_an_io_error() {
    let registration = EasyConfigPlugin::<Settings>::new("missing.cfg").build();
    let mut holder = registration.holder;
    let mut config = registration.config;

    let error = start_up(&mut holder, &mut config, None, LoadHandle::Index(3)).unwrap_err();

    assert!(matches!(error, ConfigFileLoaderError::Io(_)));
    assert_eq!(error.message(), "Could not read the file: no such file");
    assert_eq!(
        failure_message(&holder, &error),
        "missing.cfg: Could not read the file: no such file"
    );
    assert_eq!(config, None);
    assert_eq!(holder.handle(), None);
}

#[test]
fn failed_step_can_be_followed_by_a_good_one() {
    let mut holder = ConfigFileHolder::<Settings>::new("settings.cfg");
    let mut config = None;

    let failed = add_asset_to_config_file_holder(
        &mut holder,
        &mut config,
        StartupEvent::FileLoaded(read_and_decode("{")),
    );
    assert!(matches!(failed, Err(ConfigFileLoaderError::RonError(_))));
    assert_eq!(config, None);

    let next = add_asset_to_config_file_holder(&mut holder, &mut config, StartupEvent::Begin);
    assert_eq!(next.unwrap(), StartupAction::ReadConfigFile);

    let next = add_asset_to_config_file_holder(
        &mut holder,
        &mut config,
        StartupEvent::FileLoaded(read_and_decode("{ action_keybind: \"Enter\" }")),
    );
    assert_eq!(next.unwrap(), StartupAction::RequestTrackedLoad);
    assert_eq!(config, Some(Settings { action_keybind: Key::Enter }));
}

#[test]
fn default_stands_in_and_the_file_is_not_read() {
    let default = Settings { action_keybind: Key::Enter };
    let registration = EasyConfigPlugin::with_default("settings.cfg", default.clone()).build();
    let mut holder = registration.holder;
    let mut config = registration.config;
    assert_eq!(config, Some(default.clone()));

    // No contents are supplied: were the file asked for, start-up would fail.
    let actions = start_up(&mut holder, &mut config, None, LoadHandle::Uuid(77)).unwrap();

    assert_eq!(actions, vec![StartupAction::RequestTrackedLoad, StartupAction::Finished]);
    assert_eq!(config, Some(default));
    assert_eq!(holder.handle(), Some(LoadHandle::Uuid(77)));
}

#[test]
fn loaded_file_replaces_the_default_whole() {
    let default = Settings { action_keybind: Key::Enter };
    let registration = EasyConfigPlugin::with_default("settings.cfg", default.clone()).build();
    let mut holder = registration.holder;
    let mut config = registration.config;
    let key = LoadHandle::Uuid(77);
    start_up(&mut holder, &mut config, None, key).unwrap();

    // The load is announced before the value is filed: the default stays.
    let early = AssetEvent::LoadedWithDependencies { id: key };
    update_resource(&mut config, vec![Delivery { event: early, found: None }]);
    assert_eq!(config, Some(default));

    let decoded = ron::de::from_bytes::<Settings>(b"{ action_keybind: \"Space\" }").unwrap();
    let done = AssetEvent::LoadedWithDependencies { id: key };
    update_resource(&mut config, vec![Delivery { event: done, found: Some(decoded) }]);
    assert_eq!(config, Some(Settings { action_keybind: Key::Space }));
}

#[test]
fn key_is_set_only_once() {
    let mut holder = ConfigFileHolder::<Settings>::new("settings.cfg");
    let mut config = Some(Settings { action_keybind: Key::Space });
    let first = LoadHandle::Index(1);
    let second = LoadHandle::Index(2);

    let action = add_asset_to_config_file_holder(
        &mut holder,
        &mut config,
        StartupEvent::LoadTracked(first),
    );
    assert_eq!(action.unwrap(), StartupAction::Finished);
    assert_eq!(holder.handle(), Some(first));

    let action = add_asset_to_config_file_holder(
        &mut holder,
        &mut config,
        StartupEvent::LoadTracked(second),
    );
    assert_eq!(action.unwrap(), StartupAction::Finished);
    assert_eq!(holder.handle(), Some(first));
    assert_eq!(holder.path(), "settings.cfg");
}

#[test]
fn second_startup_requests_no_second_load() {
    let registration = EasyConfigPlugin::<Settings>::new("settings.cfg").build();
    let mut holder = registration.holder;
    let mut config = registration.config;
    let contents = "{ action_keybind: \"Space\" }";
    start_up(&mut holder, &mut config, Some(contents), LoadHandle::Index(1)).unwrap();

    let actions = start_up(&mut holder, &mut config, Some(contents), LoadHandle::Index(2)).unwrap();

    assert_eq!(actions, vec![StartupAction::Finished]);
    assert_eq!(holder.handle(), Some(LoadHandle::Index(1)));
    assert_eq!(config, Some(Settings { action_keybind: Key::Space }));
}

#[test]
fn decoded_file_replaces_a_value_that_is_already_there() {
    let mut holder = ConfigFileHolder::<Settings>::new("settings.cfg");
    let mut config = Some(Settings { action_keybind: Key::Space });

    let action = add_asset_to_config_file_holder(
        &mut holder,
        &mut config,
        StartupEvent::FileLoaded(read_and_decode("{ action_keybind: \"Enter\" }")),
    );

    assert_eq!(action.unwrap(), StartupAction::RequestTrackedLoad);
    assert_eq!(config, Some(Settings { action_keybind: Key::Enter }));
}

#[test]
fn paths_are_relative_to_the_assets_directory() {
    assert_eq!(assets_directory(), "assets");
}
