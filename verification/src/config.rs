//! The options of the module.
use vstd::prelude::*;
use vstd::string::StringExecFns;
use crate::table::Table;
use crate::text::Entries;

verus! {

/// The options that decide how the module behaves and what it shows.
#[derive(Clone, Debug)]
pub struct AwsConfig {
    /// The template that the finished module is laid out by.
    pub format: String,
    /// The text that stands for the module's symbol.
    pub symbol: String,
    /// The style that the module is painted in.
    pub style: String,
    /// Whether the module is shown even where no credentials are found.
    pub force_display: bool,
    /// What stands in place of the remaining time once credentials have expired.
    pub expiration_symbol: String,
    /// Names to show in place of regions.
    pub region_aliases: Table,
    /// Names to show in place of profiles.
    pub profile_aliases: Table,
}

/// An [`AwsConfig`] as contracts see it.
pub struct AwsConfigView {
    pub format: Seq<char>,
    pub symbol: Seq<char>,
    pub style: Seq<char>,
    pub force_display: bool,
    pub expiration_symbol: Seq<char>,
    pub region_aliases: Entries,
    pub profile_aliases: Entries,
}

impl View for AwsConfig {
    type V = AwsConfigView;

    open spec fn view(&self) -> AwsConfigView {
        AwsConfigView {
            format: self.format@,
            symbol: self.symbol@,
            style: self.style@,
            force_display: self.force_display,
            expiration_symbol: self.expiration_symbol@,
            region_aliases: self.region_aliases@,
            profile_aliases: self.profile_aliases@,
        }
    }
}

impl Default for AwsConfig {
    /// The options of a user who has set none: a cloud for a symbol, bold
    /// yellow, `X` for expired credentials, no aliases, and nothing shown
    /// without credentials.
    fn default() -> (config: AwsConfig)
        ensures
            config@.format == "on [$symbol($profile )(\\($region\\) )(\\[$duration\\] )]($style)"@,
            config@.symbol == "\u{2601}\u{fe0f}  "@,
            config@.style == "bold yellow"@,
            !config@.force_display,
            config@.expiration_symbol == "X"@,
            config@.region_aliases == Entries::empty(),
            config@.profile_aliases == Entries::empty(),
    {
        AwsConfig {
            format: String::from_str(
                "on [$symbol($profile )(\\($region\\) )(\\[$duration\\] )]($style)",
            ),
            symbol: String::from_str("\u{2601}\u{fe0f}  "),
            style: String::from_str("bold yellow"),
            force_display: false,
            expiration_symbol: String::from_str("X"),
            region_aliases: Table::new(),
            profile_aliases: Table::new(),
        }
    }
}

} // verus!
