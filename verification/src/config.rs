//! The settings that a user keeps on file.

use vstd::prelude::*;
use std::path::PathBuf;
use crate::section::DaySection;

verus! {

/// A path of the file system, carried through untouched.
#[verifier::external_type_specification]
#[verifier::external_body]
pub struct ExPathBuf(PathBuf);

/// `PathBuf`'s `clone` of std: the copy is the same path as the one copied.
pub assume_specification[ <PathBuf as Clone>::clone ](path: &PathBuf) -> (copy: PathBuf)
    ensures
        copy == *path,
;

/// Where the wallpapers lie: a directory and one file name per day section.
#[derive(Debug, Default)]
pub struct Wallpapers {
    pub root: PathBuf,
    pub morning: String,
    pub day: String,
    pub evening: String,
    pub night: String,
}

impl Clone for Wallpapers {
    fn clone(&self) -> (copy: Wallpapers)
        ensures
            copy == *self,
    {
        Wallpapers {
            root: self.root.clone(),
            morning: self.morning.clone(),
            day: self.day.clone(),
            evening: self.evening.clone(),
            night: self.night.clone(),
        }
    }
}

impl Wallpapers {
    pub fn new(root: PathBuf, morning: String, day: String, evening: String, night: String) -> (w:
        Wallpapers)
        ensures
            w == (Wallpapers { root, morning, day, evening, night }),
    {
        Wallpapers { root, morning, day, evening, night }
    }

    /// The file name kept for `section`.
    pub open spec fn file_for(&self, section: DaySection) -> String {
        match section {
            DaySection::Morning => self.morning,
            DaySection::Day => self.day,
            DaySection::Evening => self.evening,
            DaySection::Night => self.night,
        }
    }

    /// The file name of the wallpaper to show during `section`.
    pub fn wallpaper(&self, section: DaySection) -> (file: &String)
        ensures
            *file == self.file_for(section),
    {
        match section {
            DaySection::Morning => &self.morning,
            DaySection::Day => &self.day,
            DaySection::Evening => &self.evening,
            DaySection::Night => &self.night,
        }
    }
}

/// What is wrong with the values read from a settings file.
#[derive(Clone, Copy, Debug, PartialEq, Eq, Structural)]
pub enum ConfigLoadError {
    /// The brightness range does not hold exactly two numbers.
    BrightnessArity,
    /// The temperature range does not hold exactly two numbers.
    TemperatureArity,
}

/// The settings of one user: brightness from `.0` to `.1` in millionths of
/// full brightness, temperature from `.0` to `.1` in kelvin.
#[derive(Debug, Default)]
pub struct AppConfig {
    pub brightness_range: (i64, i64),
    pub temperature_range: (usize, usize),
    pub wallpapers: Wallpapers,
}

impl Clone for AppConfig {
    fn clone(&self) -> (copy: AppConfig)
        ensures
            copy == *self,
    {
        AppConfig {
            brightness_range: self.brightness_range,
            temperature_range: self.temperature_range,
            wallpapers: self.wallpapers.clone(),
        }
    }
}

/// The two values of a list of exactly two.
pub fn tuple_of_two<T: Copy>(values: &Vec<T>) -> (pair: Option<(T, T)>)
    ensures
        values.len() == 2 ==> pair == Some((values[0], values[1])),
        values.len() != 2 ==> pair is None,
{
    if values.len() != 2 {
        return None;
    }
    Some((values[0], values[1]))
}

impl AppConfig {
    /// Both ranges run from their lower to their upper end.
    pub open spec fn ascending(&self) -> bool {
        self.brightness_range.0 <= self.brightness_range.1 && self.temperature_range.0
            <= self.temperature_range.1
    }

    /// Whether both ranges run from their lower to their upper end.
    pub fn is_ascending(&self) -> (b: bool)
        ensures
            b == self.ascending(),
    {
        self.brightness_range.0 <= self.brightness_range.1 && self.temperature_range.0
            <= self.temperature_range.1
    }

    /// Builds the settings from the lists found on file, each of which must
    /// hold its two ends. The brightness range is looked at first.
    pub fn from_lists(brightness: &Vec<i64>, temperature: &Vec<usize>, wallpapers: Wallpapers) -> (result:
        Result<AppConfig, ConfigLoadError>)
        ensures
            brightness.len() != 2 ==> result == Err::<AppConfig, ConfigLoadError>(
                ConfigLoadError::BrightnessArity,
            ),
            brightness.len() == 2 && temperature.len() != 2 ==> result == Err::<
                AppConfig,
                ConfigLoadError,
            >(ConfigLoadError::TemperatureArity),
            brightness.len() == 2 && temperature.len() == 2 ==> result == Ok::<
                AppConfig,
                ConfigLoadError,
            >(
                AppConfig {
                    brightness_range: (brightness[0], brightness[1]),
                    temperature_range: (temperature[0], temperature[1]),
                    wallpapers,
                },
            ),
    {
        let brightness_range = match tuple_of_two(brightness) {
            Some(pair) => pair,
            None => { return Err(ConfigLoadError::BrightnessArity); },
        };
        let temperature_range = match tuple_of_two(temperature) {
            Some(pair) => pair,
            None => { return Err(ConfigLoadError::TemperatureArity); },
        };
        Ok(AppConfig { brightness_range, temperature_range, wallpapers })
    }
}

} // verus!
