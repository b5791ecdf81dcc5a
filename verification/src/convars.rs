//! The set of console variables: four named values, read and written as text.

use vstd::prelude::*;
use vstd::string::*;
use crate::error::{ConVarError, ErrorModel};
use crate::decimal::{decimal_text, digits};
use crate::value::{boolean_reads_back, integer_reads_back, reads_back, ConVarType};

verus! {

/// The declared console variables, in the order of their declaration.
///
/// The set is closed: no variable is added or removed while the program runs.
/// `P` is the type of the player's configuration and `F` that of the view
/// distance; both are read and written through `ConVarType`.
#[derive(Debug, Clone, PartialEq)]
pub struct ConVars<P, F> {
    pub player_config: P,
    pub max_enemies: i32,
    pub view_distance: F,
    pub debug_mode: bool,
}

/// One of the declared variables.
#[derive(Debug, Clone, Copy, PartialEq, Eq, Structural)]
pub enum Field {
    PlayerConfig,
    MaxEnemies,
    ViewDistance,
    DebugMode,
}

/// The variable that a name stands for. Names match letter for letter.
pub open spec fn declared(name: Seq<char>) -> Option<Field> {
    if name == "player_config"@ {
        Some(Field::PlayerConfig)
    } else if name == "max_enemies"@ {
        Some(Field::MaxEnemies)
    } else if name == "view_distance"@ {
        Some(Field::ViewDistance)
    } else if name == "debug_mode"@ {
        Some(Field::DebugMode)
    } else {
        None
    }
}

/// A value of one of the variables, marked with the variable that it is for.
pub ghost enum Value<P, F> {
    PlayerConfig(P),
    MaxEnemies(i32),
    ViewDistance(F),
    DebugMode(bool),
}

/// What the type of a variable reads from a text: a value for that variable,
/// or the type's own error.
pub open spec fn parsed_as<P: ConVarType, F: ConVarType>(field: Field, text: Seq<char>) -> Result<
    Value<P, F>,
    ErrorModel,
> {
    match field {
        Field::PlayerConfig => match P::parsed(text) {
            Ok(v) => Ok(Value::PlayerConfig(v)),
            Err(e) => Err(e),
        },
        Field::MaxEnemies => match <i32 as ConVarType>::parsed(text) {
            Ok(v) => Ok(Value::MaxEnemies(v)),
            Err(e) => Err(e),
        },
        Field::ViewDistance => match F::parsed(text) {
            Ok(v) => Ok(Value::ViewDistance(v)),
            Err(e) => Err(e),
        },
        Field::DebugMode => match <bool as ConVarType>::parsed(text) {
            Ok(v) => Ok(Value::DebugMode(v)),
            Err(e) => Err(e),
        },
    }
}

/// Whether two texts are the same, character for character.
pub fn same_text(a: &str, b: &str) -> (r: bool)
    ensures
        r == (a@ == b@),
{
    let n: usize = a.unicode_len();
    if n != b.unicode_len() {
        return false;
    }
    let mut i: usize = 0;
    while i < n
        invariant
            i <= n,
            n == a@.len(),
            n == b@.len(),
            forall|j: int| 0 <= j < i ==> a@[j] == b@[j],
        decreases n - i,
    {
        if a.get_char(i) != b.get_char(i) {
            return false;
        }
        i += 1;
    }
    assert(a@ =~= b@);
    true
}

/// Finds the variable that `name` stands for, if it is declared.
pub fn lookup(name: &str) -> (r: Option<Field>)
    ensures
        r == declared(name@),
{
    if same_text(name, "player_config") {
        Some(Field::PlayerConfig)
    } else if same_text(name, "max_enemies") {
        Some(Field::MaxEnemies)
    } else if same_text(name, "view_distance") {
        Some(Field::ViewDistance)
    } else if same_text(name, "debug_mode") {
        Some(Field::DebugMode)
    } else {
        None
    }
}

/// The error that a write reports for a text that its variable's type does
/// not read: a parse error whose message is the text of the type's own error.
pub open spec fn rejected(inner: ErrorModel) -> ErrorModel {
    ErrorModel::ParseError(inner.text())
}

/// Wraps the error of a type's parser for the caller of a write.
fn reject(inner: ConVarError) -> (r: ConVarError)
    ensures
        r@ == rejected(inner@),
{
    ConVarError::ParseError(inner.to_string())
}

impl<P: ConVarType, F: ConVarType> ConVars<P, F> {
    /// The set with every variable at its declared default. The defaults of
    /// the player's configuration and of the view distance are the caller's;
    /// at most ten enemies are allowed, and debug mode is off.
    pub open spec fn initial(player_config: P, view_distance: F) -> Self {
        ConVars { player_config, max_enemies: 10, view_distance, debug_mode: false }
    }

    /// The console text of one variable.
    pub open spec fn text(self, field: Field) -> Seq<char> {
        match field {
            Field::PlayerConfig => self.player_config.formatted(),
            Field::MaxEnemies => self.max_enemies.formatted(),
            Field::ViewDistance => self.view_distance.formatted(),
            Field::DebugMode => self.debug_mode.formatted(),
        }
    }

    /// What reading the variable called `name` gives.
    pub open spec fn read(self, name: Seq<char>) -> Result<Seq<char>, ErrorModel> {
        match declared(name) {
            Some(field) => Ok(self.text(field)),
            None => Err(ErrorModel::UnknownConVar),
        }
    }

    /// The set with one variable holding `value`, and the others as they are.
    pub open spec fn with(self, value: Value<P, F>) -> Self {
        match value {
            Value::PlayerConfig(v) => ConVars { player_config: v, ..self },
            Value::MaxEnemies(v) => ConVars { max_enemies: v, ..self },
            Value::ViewDistance(v) => ConVars { view_distance: v, ..self },
            Value::DebugMode(v) => ConVars { debug_mode: v, ..self },
        }
    }

    /// The set after `text` was written to one variable, or the error where
    /// the variable's type does not read `text`.
    pub open spec fn assigned(self, field: Field, text: Seq<char>) -> Result<Self, ErrorModel> {
        match parsed_as::<P, F>(field, text) {
            Ok(v) => Ok(self.with(v)),
            Err(e) => Err(rejected(e)),
        }
    }

    /// What writing `value` to the variable called `name` gives: the new set,
    /// or the error with which the write is refused.
    pub open spec fn written(self, name: Seq<char>, value: Seq<char>) -> Result<Self, ErrorModel> {
        match declared(name) {
            Some(field) => self.assigned(field, value),
            None => Err(ErrorModel::UnknownConVar),
        }
    }

    /// Builds the set with every variable at its declared default.
    pub fn new(player_config: P, view_distance: F) -> (r: Self)
        ensures
            r == Self::initial(player_config, view_distance),
    {
        ConVars { player_config, max_enemies: 10, view_distance, debug_mode: false }
    }

    /// Writes `value` to the variable called `name`.
    ///
    /// An undeclared name is an `UnknownConVar`; a text that the variable's
    /// type does not read is a `ParseError`. Either way the set stays as it
    /// was. Otherwise the variable holds the value read, and no other changes.
    pub fn set_str(&mut self, name: &str, value: &str) -> (r: Result<(), ConVarError>)
        ensures
            match old(self).written(name@, value@) {
                Ok(next) => r is Ok && *final(self) == next,
                Err(e) => r is Err && r->Err_0@ == e && *final(self) == *old(self),
            },
    {
        match lookup(name) {
            None => Err(ConVarError::UnknownConVar),
            Some(Field::PlayerConfig) => match P::from_convar_str(value) {
                Ok(v) => {
                    self.player_config = v;
                    Ok(())
                },
                Err(e) => Err(reject(e)),
            },
            Some(Field::MaxEnemies) => match i32::from_convar_str(value) {
                Ok(v) => {
                    self.max_enemies = v;
                    Ok(())
                },
                Err(e) => Err(reject(e)),
            },
            Some(Field::ViewDistance) => match F::from_convar_str(value) {
                Ok(v) => {
                    self.view_distance = v;
                    Ok(())
                },
                Err(e) => Err(reject(e)),
            },
            Some(Field::DebugMode) => match bool::from_convar_str(value) {
                Ok(v) => {
                    self.debug_mode = v;
                    Ok(())
                },
                Err(e) => Err(reject(e)),
            },
        }
    }

    /// Reads the variable called `name` as text.
    ///
    /// An undeclared name is an `UnknownConVar`; a declared one always gives
    /// its text.
    pub fn get_str(&self, name: &str) -> (r: Result<String, ConVarError>)
        ensures
            match self.read(name@) {
                Ok(text) => r is Ok && r->Ok_0@ == text,
                Err(e) => r is Err && r->Err_0@ == e,
            },
    {
        match lookup(name) {
            None => Err(ConVarError::UnknownConVar),
            Some(Field::PlayerConfig) => Ok(self.player_config.to_convar_str()),
            Some(Field::MaxEnemies) => Ok(self.max_enemies.to_convar_str()),
            Some(Field::ViewDistance) => Ok(self.view_distance.to_convar_str()),
            Some(Field::DebugMode) => Ok(self.debug_mode.to_convar_str()),
        }
    }
}

/// A read that gives `text`.
pub open spec fn read_ok(text: Seq<char>) -> Result<Seq<char>, ErrorModel> {
    Ok(text)
}

/// Each declared name stands for its own variable.
pub proof fn declared_names()
    ensures
        declared("player_config"@) == Some(Field::PlayerConfig),
        declared("max_enemies"@) == Some(Field::MaxEnemies),
        declared("view_distance"@) == Some(Field::ViewDistance),
        declared("debug_mode"@) == Some(Field::DebugMode),
{
    reveal_strlit("player_config");
    reveal_strlit("max_enemies");
    reveal_strlit("view_distance");
    reveal_strlit("debug_mode");
    assert("player_config"@.len() == 13);
    assert("max_enemies"@.len() == 11);
    assert("view_distance"@.len() == 13);
    assert("debug_mode"@.len() == 10);
    assert("player_config"@[0] == 'p');
    assert("view_distance"@[0] == 'v');
}

/// Read right after it was built, every variable gives the text of its
/// declared default.
pub proof fn defaults_read_back<P: ConVarType, F: ConVarType>(player_config: P, view_distance: F)
    ensures
        ConVars::initial(player_config, view_distance).read("player_config"@) == read_ok(
            player_config.formatted(),
        ),
        ConVars::initial(player_config, view_distance).read("max_enemies"@) == read_ok("10"@),
        ConVars::initial(player_config, view_distance).read("view_distance"@) == read_ok(
            view_distance.formatted(),
        ),
        ConVars::initial(player_config, view_distance).read("debug_mode"@) == read_ok("false"@),
{
    declared_names();
    reveal_strlit("10");
    reveal_with_fuel(digits, 2);
    assert(decimal_text(10) =~= "10"@);
}

/// A name that is not declared is refused by a read and by a write alike,
/// whatever the value.
pub proof fn undeclared_name_is_refused<P: ConVarType, F: ConVarType>(
    vars: ConVars<P, F>,
    name: Seq<char>,
    value: Seq<char>,
)
    requires
        declared(name) is None,
    ensures
        vars.read(name) is Err && vars.read(name)->Err_0 is UnknownConVar,
        vars.written(name, value) is Err && vars.written(name, value)->Err_0 is UnknownConVar,
{
}

/// A write to a declared name fails exactly where the variable's type does
/// not read the value, and then with a parse error.
pub proof fn malformed_value_is_refused<P: ConVarType, F: ConVarType>(
    vars: ConVars<P, F>,
    name: Seq<char>,
    value: Seq<char>,
)
    requires
        declared(name) is Some,
    ensures
        vars.written(name, value) is Err <==> parsed_as::<P, F>(declared(name)->Some_0, value) is Err,
        vars.written(name, value) is Err ==> vars.written(name, value)->Err_0 is ParseError,
{
}

/// After a write that succeeds, the text read under the same name is read by
/// the variable's type as the value that was written. For the player's
/// configuration and the view distance this holds of a value that its type
/// reads back.
pub proof fn write_then_read_round_trips<P: ConVarType, F: ConVarType>(
    vars: ConVars<P, F>,
    name: Seq<char>,
    value: Seq<char>,
)
    requires
        vars.written(name, value) is Ok,
        declared(name) == Some(Field::PlayerConfig) ==> reads_back(
            vars.written(name, value)->Ok_0.player_config,
        ),
        declared(name) == Some(Field::ViewDistance) ==> reads_back(
            vars.written(name, value)->Ok_0.view_distance,
        ),
    ensures
        vars.written(name, value)->Ok_0.read(name) is Ok,
        parsed_as::<P, F>(
            declared(name)->Some_0,
            vars.written(name, value)->Ok_0.read(name)->Ok_0,
        ) == parsed_as::<P, F>(declared(name)->Some_0, value),
{
    let next = vars.written(name, value)->Ok_0;
    integer_reads_back(next.max_enemies);
    boolean_reads_back(next.debug_mode);
}

impl<P: ConVarType + Default, F: ConVarType + Default> Default for ConVars<P, F> {
    /// The set with every variable at its declared default, where the
    /// player's configuration and the view distance start at the defaults of
    /// their own types.
    fn default() -> (r: Self)
        ensures
            r.max_enemies == 10,
            r.debug_mode == false,
    {
        ConVars::new(P::default(), F::default())
    }
}

} // verus!
