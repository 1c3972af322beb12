use vstd::prelude::*;

use crate::event::Event;
use crate::text::{decimal, push_decimal};

verus! {

/// A recorded macro in replayable form: a script with what is known of
/// where it was recorded.
#[derive(Debug)]
pub struct Data {
    name: String,
    resolution: (i32, i32),
    os: String,
    os_version: String,
    pub content: String,
}

/// What a [`Data`] holds.
pub struct DataView {
    pub name: Seq<char>,
    pub resolution: (i32, i32),
    pub os: Seq<char>,
    pub os_version: Seq<char>,
    pub content: Seq<char>,
}

impl View for Data {
    type V = DataView;

    closed spec fn view(&self) -> DataView {
        DataView {
            name: self.name@,
            resolution: self.resolution,
            os: self.os@,
            os_version: self.os_version@,
            content: self.content@,
        }
    }
}

impl Clone for Data {
    fn clone(&self) -> (copy: Data)
        ensures
            copy@ == self@,
    {
        Data {
            name: self.name.clone(),
            resolution: self.resolution,
            os: self.os.clone(),
            os_version: self.os_version.clone(),
            content: self.content.clone(),
        }
    }
}

impl Data {
    /// What a macro holds that was made from a name and a script alone.
    pub open spec fn named(name: Seq<char>, content: Seq<char>) -> DataView {
        DataView { name, resolution: (0, 0), os: Seq::empty(), os_version: Seq::empty(), content }
    }

    /// A macro of the given name and script, recorded nowhere in particular.
    pub fn new(name: String, content: String) -> (data: Data)
        ensures
            data@ == Data::named(name@, content@),
    {
        Data { name, resolution: (0, 0), os: String::new(), os_version: String::new(), content }
    }

    /// The macro's name.
    pub fn name(&self) -> (name: &str)
        ensures
            name@ == self@.name,
    {
        self.name.as_str()
    }

    /// The macro's script.
    pub fn script(&self) -> (content: &str)
        ensures
            content@ == self@.content,
    {
        self.content.as_str()
    }
}

/// The script of a log: the statements of its events, one after another.
pub open spec fn script_text(events: Seq<Event>) -> Seq<char>
    decreases events.len(),
{
    if events.len() == 0 {
        Seq::empty()
    } else {
        script_text(events.drop_last()) + events.last().statement()
    }
}

/// Encodes a log as a macro, under the name `undefined` until it is saved.
pub fn events_to_data(events: &Vec<Event>) -> (data: Data)
    ensures
        data@ == Data::named("undefined"@, script_text(events@)),
{
    let mut content = String::new();
    let mut i: usize = 0;
    while i < events.len()
        invariant
            i <= events@.len(),
            content@ == script_text(events@.take(i as int)),
        decreases events@.len() - i,
    {
        let statement = events[i].to_string();
        content.append(statement.as_str());
        proof {
            assert(events@.take(i + 1).drop_last() =~= events@.take(i as int));
        }
        i += 1;
    }
    proof {
        assert(events@.take(i as int) =~= events@);
    }
    Data::new(String::from_str("undefined"), content)
}

/// The name of the script file that follows `script_num` saved ones.
pub open spec fn script_filename(script_num: usize) -> Seq<char> {
    "undefined-"@ + decimal((script_num + 1) as nat) + ".rhai"@
}

/// The name under which the next script is saved, where `script_num`
/// are saved already.
pub fn generate_script_filename(script_num: usize) -> (name: String)
    ensures
        name@ == script_filename(script_num),
{
    let mut name = String::from_str("undefined-");
    push_decimal(&mut name, script_num as u128 + 1);
    name.append(".rhai");
    name
}

/// The path under which the next script is saved, where `script_num`
/// are saved already.
pub fn generate_script_filepath(script_num: usize) -> (path: String)
    ensures
        path@ == "scripts/"@ + script_filename(script_num),
{
    let mut path = String::from_str("scripts/");
    let name = generate_script_filename(script_num);
    path.append(name.as_str());
    path
}

} // verus!
