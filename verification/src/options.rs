//! How an identifier is to be made: the separator, the case of the words,
//! whether an adverb closes it and how many adjectives open it.

use vstd::prelude::*;

verus! {

/// The settings of a generation as plain mathematics: what `Options` and
/// every contract about generated identifiers speak of.
pub struct Settings {
    /// The text between two neighbouring words.
    pub separator: Seq<char>,
    /// Whether the first character of every word is upper-cased.
    pub capitalize: bool,
    /// Whether an adverb closes the identifier.
    pub add_adverb: bool,
    /// How many adjectives open the identifier.
    pub adjective_count: nat,
}

impl Settings {
    /// The number of words of an identifier made with these settings: the
    /// adjectives, one noun, one verb and the adverb if there is one.
    pub open spec fn word_count(self) -> nat {
        self.adjective_count + 2 + if self.add_adverb {
            1nat
        } else {
            0nat
        }
    }
}

/// The separator that is used where none was chosen: a single hyphen.
pub open spec fn default_separator() -> Seq<char> {
    seq!['-']
}

/// The settings that hold where nothing was chosen: a hyphen between
/// capitalized words, one adjective, no adverb.
pub open spec fn default_settings() -> Settings {
    Settings {
        separator: default_separator(),
        capitalize: true,
        add_adverb: false,
        adjective_count: 1,
    }
}

/// Options for generating a human readable identifier.
#[derive(Debug)]
pub struct Options<'a> {
    /// Separator to use between words; a hyphen where there is none.
    pub separator: Option<&'a str>,
    /// Whether to capitalize each word.
    pub capitalize: bool,
    /// Whether to add an adverb to the end of the identifier.
    pub add_adverb: bool,
    /// Number of adjectives to use.
    pub adjective_count: usize,
}

impl<'a> View for Options<'a> {
    type V = Settings;

    open spec fn view(&self) -> Settings {
        Settings {
            separator: match self.separator {
                Some(separator) => separator@,
                None => default_separator(),
            },
            capitalize: self.capitalize,
            add_adverb: self.add_adverb,
            adjective_count: self.adjective_count as nat,
        }
    }
}

impl<'a> Default for Options<'a> {
    /// A hyphen between capitalized words, one adjective, no adverb.
    fn default() -> (options: Self)
        ensures
            options.is_default(),
            options@ == default_settings(),
    {
        proof {
            reveal_strlit("-");
        }
        assert("-"@ =~= default_separator());
        Options { separator: Some("-"), capitalize: true, add_adverb: false, adjective_count: 1 }
    }
}

impl<'a> Options<'a> {
    /// These are the default options, field by field.
    pub open spec fn is_default(&self) -> bool {
        &&& self.separator == Some("-")
        &&& self.capitalize
        &&& !self.add_adverb
        &&& self.adjective_count == 1
    }

    /// Creates the default options: a hyphen between capitalized words, one
    /// adjective, no adverb.
    pub fn new() -> (options: Self)
        ensures
            options.is_default(),
            options@ == default_settings(),
    {
        Self::default()
    }

    /// Starts a builder that holds the default options, with no separator
    /// chosen yet.
    pub fn builder() -> (builder: OptionsBuilder<'a>)
        ensures
            builder.staged().separator.is_none(),
            builder.staged().capitalize,
            !builder.staged().add_adverb,
            builder.staged().adjective_count == 1,
    {
        OptionsBuilder::default()
    }

    /// Sets the separator to use between words.
    pub fn separator(self, separator: &'a str) -> (options: Self)
        ensures
            options == (Options { separator: Some(separator), ..self }),
            options@ == (Settings { separator: separator@, ..self@ }),
    {
        Options {
            separator: Some(separator),
            capitalize: self.capitalize,
            add_adverb: self.add_adverb,
            adjective_count: self.adjective_count,
        }
    }

    /// Sets whether to capitalize each word.
    pub fn capitalize(self, capitalize: bool) -> (options: Self)
        ensures
            options == (Options { capitalize, ..self }),
            options@ == (Settings { capitalize, ..self@ }),
    {
        Options {
            separator: self.separator,
            capitalize,
            add_adverb: self.add_adverb,
            adjective_count: self.adjective_count,
        }
    }

    /// Sets whether to add an adverb to the end of the identifier.
    pub fn add_adverb(self, add_adverb: bool) -> (options: Self)
        ensures
            options == (Options { add_adverb, ..self }),
            options@ == (Settings { add_adverb, ..self@ }),
    {
        Options {
            separator: self.separator,
            capitalize: self.capitalize,
            add_adverb,
            adjective_count: self.adjective_count,
        }
    }

    /// Sets the number of adjectives to use.
    pub fn adjective_count(self, adjective_count: usize) -> (options: Self)
        ensures
            options == (Options { adjective_count, ..self }),
            options@ == (Settings { adjective_count: adjective_count as nat, ..self@ }),
    {
        Options {
            separator: self.separator,
            capitalize: self.capitalize,
            add_adverb: self.add_adverb,
            adjective_count,
        }
    }
}

/// Collects options step by step; `build` hands them out.
#[derive(Debug)]
pub struct OptionsBuilder<'a> {
    separator: Option<&'a str>,
    capitalize: bool,
    add_adverb: bool,
    adjective_count: usize,
}

impl<'a> Default for OptionsBuilder<'a> {
    /// No separator chosen, capitalized words, one adjective, no adverb.
    fn default() -> (builder: Self)
        ensures
            builder.staged().separator.is_none(),
            builder.staged().capitalize,
            !builder.staged().add_adverb,
            builder.staged().adjective_count == 1,
    {
        OptionsBuilder { separator: None, capitalize: true, add_adverb: false, adjective_count: 1 }
    }
}

impl<'a> OptionsBuilder<'a> {
    /// The options that `build` would hand out now.
    pub closed spec fn staged(&self) -> Options<'a> {
        Options {
            separator: self.separator,
            capitalize: self.capitalize,
            add_adverb: self.add_adverb,
            adjective_count: self.adjective_count,
        }
    }

    /// Sets the separator to use between words.
    pub fn separator(self, separator: &'a str) -> (builder: Self)
        ensures
            builder.staged() == (Options { separator: Some(separator), ..self.staged() }),
    {
        OptionsBuilder {
            separator: Some(separator),
            capitalize: self.capitalize,
            add_adverb: self.add_adverb,
            adjective_count: self.adjective_count,
        }
    }

    /// Sets whether to capitalize each word.
    pub fn capitalize(self, capitalize: bool) -> (builder: Self)
        ensures
            builder.staged() == (Options { capitalize, ..self.staged() }),
    {
        OptionsBuilder {
            separator: self.separator,
            capitalize,
            add_adverb: self.add_adverb,
            adjective_count: self.adjective_count,
        }
    }

    /// Sets whether to add an adverb to the end of the identifier.
    pub fn add_adverb(self, add_adverb: bool) -> (builder: Self)
        ensures
            builder.staged() == (Options { add_adverb, ..self.staged() }),
    {
        OptionsBuilder {
            separator: self.separator,
            capitalize: self.capitalize,
            add_adverb,
            adjective_count: self.adjective_count,
        }
    }

    /// Sets the number of adjectives to use.
    pub fn adjective_count(self, adjective_count: usize) -> (builder: Self)
        ensures
            builder.staged() == (Options { adjective_count, ..self.staged() }),
    {
        OptionsBuilder {
            separator: self.separator,
            capitalize: self.capitalize,
            add_adverb: self.add_adverb,
            adjective_count,
        }
    }

    /// Hands out the options collected so far.
    pub fn build(self) -> (options: Options<'a>)
        ensures
            options == self.staged(),
    {
        Options {
            separator: self.separator,
            capitalize: self.capitalize,
            add_adverb: self.add_adverb,
            adjective_count: self.adjective_count,
        }
    }
}

} // verus!
