//! The configuration of the devices: the sections as they are read, and
//! their resolution into one complete configuration per enabled device.

pub use crate::gestures::GestureConfig;
use crate::gestures::{merge_gestures, overlaid, GestureMap, RawGestureConfig};
pub use crate::thresholds::ValidatedThresholds;
use crate::thresholds::{key_texts, RawThresholds};
use vstd::prelude::*;
use vstd::string::StringExecFns;

verus! {

/// What can go wrong on the way to a configuration. The texts are plain:
/// the path of the file, and what the reader or the parser said.
#[derive(Debug)]
pub enum BodgestrError {
    /// The file could not be read.
    ConfigReadError { path: String, source: String },
    /// The file is not a well-formed configuration.
    ConfigParseError { path: String, message: String },
    /// An enabled device lacks thresholds; `missing` lists their keys.
    MissingThresholds { device: String, missing: String },
}

/// The `[global]` section.
#[derive(Debug)]
pub struct RawGlobal {
    pub log_level: Option<String>,
    pub log_file: Option<String>,
    pub thresholds: RawThresholds,
    pub gestures: Vec<(String, RawGestureConfig)>,
}

/// One `[device.<name>]` section.
#[derive(Debug)]
pub struct RawDevice {
    pub device_usb_id: Option<String>,
    pub enabled: Option<bool>,
    pub thresholds: RawThresholds,
    pub gestures: Vec<(String, RawGestureConfig)>,
}

/// A whole configuration as it is read: the global section and the device
/// sections, each under its name.
#[derive(Debug)]
pub struct RawConfig {
    pub global: RawGlobal,
    pub device: Vec<(String, RawDevice)>,
}

/// The complete configuration of one device.
pub struct DeviceConfig {
    pub device_usb_id: String,
    pub gestures: GestureMap,
    pub thresholds: ValidatedThresholds,
}

/// The resolved configuration: the enabled devices, each under its name,
/// in the order of their sections.
pub struct AppConfig {
    pub log_level: String,
    pub log_file: Option<String>,
    pub devices: Vec<(String, DeviceConfig)>,
}

/// The texts of `parts` with `separator` between each two.
pub open spec fn joined(parts: Seq<Seq<char>>, separator: Seq<char>) -> Seq<char>
    decreases parts.len(),
{
    if parts.len() == 0 {
        Seq::empty()
    } else if parts.len() == 1 {
        parts[0]
    } else {
        joined(parts.drop_last(), separator) + separator + parts.last()
    }
}

/// Joins `parts` with `separator` between each two.
pub fn join(parts: &Vec<&'static str>, separator: &str) -> (text: String)
    ensures
        text@ == joined(key_texts(parts@), separator@),
{
    let mut text = String::new();
    let mut i: usize = 0;
    assert(key_texts(parts@).take(0) =~= Seq::empty());
    while i < parts.len()
        invariant
            i <= parts.len(),
            text@ == joined(key_texts(parts@).take(i as int), separator@),
        decreases parts.len() - i,
    {
        let ghost before = key_texts(parts@).take(i as int);
        let ghost after = key_texts(parts@).take(i + 1);
        assert(after.drop_last() =~= before);
        assert(after.last() == parts@[i as int]@);
        if i > 0 {
            text.append(separator);
        }
        text.append(parts[i]);
        assert(text@ =~= joined(after, separator@));
        i += 1;
    }
    assert(key_texts(parts@).take(i as int) =~= key_texts(parts@));
    text
}

impl BodgestrError {
    /// The message of the error.
    pub open spec fn spec_message(self) -> Seq<char> {
        match self {
            BodgestrError::ConfigReadError { path, source } => "Failed to read config file "@
                + path@ + ": "@ + source@,
            BodgestrError::ConfigParseError { path, message } => "Failed to parse config file "@
                + path@ + ": "@ + message@,
            BodgestrError::MissingThresholds { device, missing } =>
                "Config validation error for device '"@ + device@ + "': missing threshold(s): "@
                    + missing@,
        }
    }

    /// The message of the error.
    pub fn to_string(&self) -> (text: String)
        ensures
            text@ == self.spec_message(),
    {
        match self {
            BodgestrError::ConfigReadError { path, source } => {
                let mut text = "Failed to read config file ".to_owned();
                text.append(path.as_str());
                text.append(": ");
                text.append(source.as_str());
                text
            },
            BodgestrError::ConfigParseError { path, message } => {
                let mut text = "Failed to parse config file ".to_owned();
                text.append(path.as_str());
                text.append(": ");
                text.append(message.as_str());
                text
            },
            BodgestrError::MissingThresholds { device, missing } => {
                let mut text = "Config validation error for device '".to_owned();
                text.append(device.as_str());
                text.append("': missing threshold(s): ");
                text.append(missing.as_str());
                text
            },
        }
    }
}

impl RawDevice {
    /// Whether the section describes a device to listen to: it is enabled
    /// and names a USB identifier that is not empty.
    pub open spec fn is_usable(self) -> bool {
        &&& self.enabled == Some(true)
        &&& self.device_usb_id matches Some(id)
        &&& id@.len() > 0
    }

    /// The USB identifier of a usable section.
    fn usable_id(&self) -> (id: Option<&String>)
        ensures
            id is Some <==> self.is_usable(),
            id matches Some(text) ==> self.device_usb_id == Some(*text),
    {
        match self.enabled {
            Some(true) => {},
            _ => {
                return None;
            },
        }
        match &self.device_usb_id {
            Some(id) => {
                if id.as_str().is_empty() {
                    None
                } else {
                    Some(id)
                }
            },
            None => None,
        }
    }
}

impl RawConfig {
    /// The thresholds of the device section `i`, each absent one filled
    /// from the global section.
    pub open spec fn merged_thresholds(self, i: int) -> RawThresholds {
        self.device[i].1.thresholds.spec_merge(self.global.thresholds)
    }

    /// Whether the device section `i` is usable but lacks a threshold.
    pub open spec fn lacks_thresholds(self, i: int) -> bool {
        self.device[i].1.is_usable() && !self.merged_thresholds(i).is_complete()
    }

    /// The positions of the usable device sections among the first `n`, in
    /// order.
    pub open spec fn usable_before(self, n: int) -> Seq<int>
        decreases n,
    {
        if n <= 0 {
            Seq::empty()
        } else if self.device[n - 1].1.is_usable() {
            self.usable_before(n - 1).push(n - 1)
        } else {
            self.usable_before(n - 1)
        }
    }

    /// Whether `resolved` is the configuration of the device section `i`.
    pub open spec fn resolves_to(self, i: int, resolved: (String, DeviceConfig)) -> bool {
        &&& resolved.0@ == self.device[i].0@
        &&& self.device[i].1.device_usb_id matches Some(id)
        &&& resolved.1.device_usb_id@ == id@
        &&& resolved.1.thresholds == self.merged_thresholds(i).spec_values()
        &&& resolved.1.gestures@ == overlaid(
            overlaid(Map::empty(), self.global.gestures@),
            self.device[i].1.gestures@,
        )
    }

    /// The log level: that of the global section, or `info`.
    pub open spec fn spec_log_level(self) -> Seq<char> {
        match self.global.log_level {
            Some(level) => level@,
            None => "info"@,
        }
    }
}

/// The usable sections among the first `n` are listed completely, once
/// each and in their order.
pub proof fn law_usable_sections(raw: RawConfig, n: int)
    requires
        0 <= n <= raw.device.len(),
    ensures
        forall|k: int|
            0 <= k < raw.usable_before(n).len() ==> 0 <= (#[trigger] raw.usable_before(n)[k]) < n
                && raw.device[raw.usable_before(n)[k]].1.is_usable(),
        forall|j: int, k: int|
            0 <= j < k < raw.usable_before(n).len() ==> (#[trigger] raw.usable_before(n)[j]) < (
            #[trigger] raw.usable_before(n)[k]),
        forall|i: int|
            0 <= i < n && (#[trigger] raw.device[i]).1.is_usable() ==> raw.usable_before(
                n,
            ).contains(i),
    decreases n,
{
    if n > 0 {
        law_usable_sections(raw, n - 1);
        let before = raw.usable_before(n - 1);
        let all = raw.usable_before(n);
        if raw.device[n - 1].1.is_usable() {
            assert(all[all.len() - 1] == n - 1);
            assert forall|i: int|
                0 <= i < n && (#[trigger] raw.device[i]).1.is_usable() implies all.contains(
                i,
            ) by {
                if i < n - 1 {
                    let k = choose|k: int| 0 <= k < before.len() && before[k] == i;
                    assert(all[k] == i);
                }
            }
        }
    }
}

/// Whether no two device sections share a name.
pub open spec fn sections_distinct(raw: RawConfig) -> bool {
    forall|i: int, j: int|
        0 <= i < j < raw.device.len() ==> (#[trigger] raw.device[i]).0@ != (
        #[trigger] raw.device[j]).0@
}

/// Where no two device sections share a name, no two resolved devices do.
pub proof fn law_resolved_names_distinct(raw: RawConfig, devices: Seq<(String, DeviceConfig)>)
    requires
        sections_distinct(raw),
        devices.len() == raw.usable_before(raw.device.len() as int).len(),
        forall|k: int|
            0 <= k < devices.len() ==> raw.resolves_to(
                raw.usable_before(raw.device.len() as int)[k],
                #[trigger] devices[k],
            ),
    ensures
        forall|j: int, k: int|
            0 <= j < k < devices.len() ==> (#[trigger] devices[j]).0@ != (#[trigger] devices[k]).0@,
{
    let usable = raw.usable_before(raw.device.len() as int);
    law_usable_sections(raw, raw.device.len() as int);
    assert forall|j: int, k: int| 0 <= j < k < devices.len() implies (#[trigger] devices[j]).0@ != (
    #[trigger] devices[k]).0@ by {
        assert(usable[j] < usable[k]);
        assert(raw.resolves_to(usable[j], devices[j]));
        assert(raw.resolves_to(usable[k], devices[k]));
        assert(raw.device[usable[j]].0@ != raw.device[usable[k]].0@);
    }
}

fn copy_text(text: &Option<String>) -> (copy: Option<String>)
    ensures
        copy == *text,
{
    match text {
        Some(t) => Some(t.clone()),
        None => None,
    }
}

/// Resolves a configuration as it was read into the configuration of its
/// usable devices.
///
/// A device section that is not enabled, or names no USB identifier, is
/// left out. Each other section gets the global gestures with its own laid
/// over them, and its thresholds with each absent one filled from the
/// global section. The first usable section that still lacks a threshold
/// makes the whole fail, with the keys of what it lacks.
pub fn resolve_config(raw: &RawConfig) -> (resolved: Result<AppConfig, BodgestrError>)
    ensures
        resolved is Err <==> exists|i: int|
            0 <= i < raw.device@.len() && #[trigger] raw.lacks_thresholds(i),
        resolved matches Err(error) ==> exists|i: int|
            0 <= i < raw.device@.len() && #[trigger] raw.lacks_thresholds(i) && (forall|j: int|
                0 <= j < i ==> !#[trigger] raw.lacks_thresholds(j)) && (error
                matches BodgestrError::MissingThresholds { device, missing } && device@
                == raw.device[i].0@ && missing@ == joined(
                raw.merged_thresholds(i).spec_missing(),
                ", "@,
            )),
        resolved matches Ok(config) ==> {
            let usable = raw.usable_before(raw.device@.len() as int);
            &&& config.log_level@ == raw.spec_log_level()
            &&& config.log_file == raw.global.log_file
            &&& config.devices@.len() == usable.len()
            &&& forall|k: int|
                0 <= k < usable.len() ==> raw.resolves_to(usable[k], #[trigger] config.devices@[k])
        },
{
    let mut devices: Vec<(String, DeviceConfig)> = Vec::new();
    let mut i: usize = 0;
    while i < raw.device.len()
        invariant
            i <= raw.device.len(),
            forall|j: int| 0 <= j < i ==> !#[trigger] raw.lacks_thresholds(j),
            devices@.len() == raw.usable_before(i as int).len(),
            forall|k: int|
                0 <= k < devices@.len() ==> raw.resolves_to(
                    raw.usable_before(i as int)[k],
                    #[trigger] devices@[k],
                ),
        decreases raw.device.len() - i,
    {
        let name = &raw.device[i].0;
        let section = &raw.device[i].1;
        if let Some(usb_id) = section.usable_id() {
            let merged = section.thresholds.merge_with_fallback(&raw.global.thresholds);
            match merged.into_validated() {
                Err(keys) => {
                    let error = BodgestrError::MissingThresholds {
                        device: name.clone(),
                        missing: join(&keys, ", "),
                    };
                    assert(raw.lacks_thresholds(i as int));
                    return Err(error);
                },
                Ok(thresholds) => {
                    let config = DeviceConfig {
                        device_usb_id: usb_id.clone(),
                        gestures: merge_gestures(&raw.global.gestures, &section.gestures),
                        thresholds,
                    };
                    devices.push((name.clone(), config));
                },
            }
        }
        i += 1;
    }
    let log_level = match &raw.global.log_level {
        Some(level) => level.clone(),
        None => "info".to_owned(),
    };
    Ok(AppConfig { log_level, log_file: copy_text(&raw.global.log_file), devices })
}

impl AppConfig {
    /// The configuration of the device under `name`: the last one, should
    /// several sections share the name.
    pub fn device(&self, name: &str) -> (found: Option<&DeviceConfig>)
        ensures
            found matches Some(config) ==> exists|k: int|
                0 <= k < self.devices@.len() && (#[trigger] self.devices@[k]).0@ == name@
                    && self.devices@[k].1 == *config && forall|j: int|
                    k < j < self.devices@.len() ==> (#[trigger] self.devices@[j]).0@ != name@,
            found is None ==> forall|k: int|
                0 <= k < self.devices@.len() ==> (#[trigger] self.devices@[k]).0@ != name@,
    {
        let wanted = name.to_owned();
        let mut i: usize = self.devices.len();
        while i > 0
            invariant
                i <= self.devices@.len(),
                wanted@ == name@,
                forall|j: int|
                    i <= j < self.devices@.len() ==> (#[trigger] self.devices@[j]).0@ != name@,
            decreases i,
        {
            i -= 1;
            if self.devices[i].0 == wanted {
                return Some(&self.devices[i].1);
            }
        }
        None
    }
}

} // verus!
