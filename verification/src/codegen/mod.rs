//! Descriptions of the properties of the data structs (`ServerData`,
//! `ChannelData`, `ConnectionData`), and of the code that fetches, updates and
//! reads each property.
use vstd::prelude::*;

use self::text::{pascal_case, push_text, same_text, starts_with, to_pascal_case};

pub mod channel;
pub mod connection;
pub mod server;
pub mod text;

verus! {

/// The view of an optional string.
pub open spec fn opt_view(o: Option<String>) -> Option<Seq<char>> {
    match o {
        Some(s) => Some(s@),
        None => None,
    }
}

/// The views of a list of string pairs.
pub open spec fn pairs_view(s: Seq<(String, String)>) -> Seq<(Seq<char>, Seq<char>)> {
    s.map_values(|p: (String, String)| (p.0@, p.1@))
}

/// The views of a list of strings.
pub open spec fn strings_view(s: Seq<String>) -> Seq<Seq<char>> {
    s.map_values(|x: String| x@)
}

/// The value of the last pair whose key is `k`: the pairs read as a map
/// into which they are inserted in order, so that a later pair replaces an
/// earlier one with the same key.
pub open spec fn lookup(s: Seq<(Seq<char>, Seq<char>)>, k: Seq<char>) -> Option<Seq<char>>
    decreases s.len(),
{
    if s.len() == 0 {
        None
    } else if s.last().0 == k {
        Some(s.last().1)
    } else {
        lookup(s.drop_last(), k)
    }
}

/// The map that results from inserting the pairs in order.
pub open spec fn pairs_map(s: Seq<(Seq<char>, Seq<char>)>) -> Map<Seq<char>, Seq<char>>
    decreases s.len(),
{
    if s.len() == 0 {
        Map::empty()
    } else {
        pairs_map(s.drop_last()).insert(s.last().0, s.last().1)
    }
}

fn clone_opt(o: &Option<String>) -> (r: Option<String>)
    ensures
        opt_view(r) == opt_view(*o),
{
    match o {
        Some(s) => Some(s.clone()),
        None => None,
    }
}

fn clone_pairs(v: &Vec<(String, String)>) -> (r: Vec<(String, String)>)
    ensures
        pairs_view(r@) == pairs_view(v@),
{
    let mut r: Vec<(String, String)> = Vec::new();
    let mut i: usize = 0;
    while i < v.len()
        invariant
            i <= v.len(),
            r.len() == i,
            forall|j: int| 0 <= j < i ==> #[trigger] r@[j].0@ == v@[j].0@ && r@[j].1@ == v@[j].1@,
        decreases v.len() - i,
    {
        let (a, b) = &v[i];
        r.push((a.clone(), b.clone()));
        i = i + 1;
    }
    assert(pairs_view(r@) =~= pairs_view(v@));
    r
}

fn clone_strings(v: &Vec<String>) -> (r: Vec<String>)
    ensures
        strings_view(r@) == strings_view(v@),
{
    let mut r: Vec<String> = Vec::new();
    let mut i: usize = 0;
    while i < v.len()
        invariant
            i <= v.len(),
            r.len() == i,
            forall|j: int| 0 <= j < i ==> #[trigger] r@[j]@ == v@[j]@,
        decreases v.len() - i,
    {
        r.push(v[i].clone());
        i = i + 1;
    }
    assert(strings_view(r@) =~= strings_view(v@));
    r
}

/// What a property description (or a builder of one) holds.
pub struct PropertyView {
    pub name: Seq<char>,
    pub type_s: Seq<char>,
    pub result: bool,
    pub documentation: Seq<char>,
    pub initialise: bool,
    pub initialisation: Option<Seq<char>>,
    pub update: Option<Seq<char>>,
    pub should_update: bool,
    pub method_name: Option<Seq<char>>,
    pub enum_name: Seq<char>,
    pub value_name: Option<Seq<char>>,
    pub functions: Seq<(Seq<char>, Seq<char>)>,
    pub transmutable: Seq<Seq<char>>,
    pub default_args: Seq<char>,
    pub default_args_update: Seq<char>,
    pub api_getter: bool,
    pub public: bool,
    pub requested: bool,
}

/// The description of a property of a data struct.
pub struct Property {
    /// The name of the property (the field name).
    name: String,
    /// The Rust type of the property.
    type_s: String,
    /// If the property should be wrapped into a result.
    result: bool,
    /// The documentation of the property.
    documentation: String,
    /// If the property gets initialised from the TeamSpeak API.
    initialise: bool,
    /// The code that creates the content of this property.
    initialisation: Option<String>,
    /// The code that updates the content of this property.
    update: Option<String>,
    /// If an update method should be generated for this property.
    should_update: bool,
    /// Use a fixed function to fetch the property.
    method_name: Option<String>,
    /// The name that is used to initialise this value: enum_name::value_name
    enum_name: String,
    /// The enum value of the property, if it differs from its name in pascal case.
    value_name: Option<String>,
    /// Map type_s → used function; a later entry for a type replaces an
    /// earlier one.
    functions: Vec<(String, String)>,
    /// Types that are transmutable, the standard type that is taken is int.
    transmutable: Vec<String>,
    /// Arguments passed to the function.
    default_args: String,
    /// Arguments passed to the function when updating the property.
    default_args_update: String,
    /// If an api getter should be created for this property.
    api_getter: bool,
    /// If the getter method should be public.
    public: bool,
    /// If this property needs to be requested.
    requested: bool,
}

impl View for Property {
    type V = PropertyView;

    closed spec fn view(&self) -> PropertyView {
        PropertyView {
            name: self.name@,
            type_s: self.type_s@,
            result: self.result,
            documentation: self.documentation@,
            initialise: self.initialise,
            initialisation: opt_view(self.initialisation),
            update: opt_view(self.update),
            should_update: self.should_update,
            method_name: opt_view(self.method_name),
            enum_name: self.enum_name@,
            value_name: opt_view(self.value_name),
            functions: pairs_view(self.functions@),
            transmutable: strings_view(self.transmutable@),
            default_args: self.default_args@,
            default_args_update: self.default_args_update@,
            api_getter: self.api_getter,
            public: self.public,
            requested: self.requested,
        }
    }
}

/// A builder of property descriptions: each setter returns a changed copy.
pub struct PropertyBuilder {
    name: String,
    type_s: String,
    result: bool,
    documentation: String,
    initialise: bool,
    initialisation: Option<String>,
    update: Option<String>,
    should_update: bool,
    method_name: Option<String>,
    enum_name: String,
    value_name: Option<String>,
    functions: Vec<(String, String)>,
    transmutable: Vec<String>,
    default_args: String,
    default_args_update: String,
    api_getter: bool,
    public: bool,
    requested: bool,
}

impl View for PropertyBuilder {
    type V = PropertyView;

    closed spec fn view(&self) -> PropertyView {
        PropertyView {
            name: self.name@,
            type_s: self.type_s@,
            result: self.result,
            documentation: self.documentation@,
            initialise: self.initialise,
            initialisation: opt_view(self.initialisation),
            update: opt_view(self.update),
            should_update: self.should_update,
            method_name: opt_view(self.method_name),
            enum_name: self.enum_name@,
            value_name: opt_view(self.value_name),
            functions: pairs_view(self.functions@),
            transmutable: strings_view(self.transmutable@),
            default_args: self.default_args@,
            default_args_update: self.default_args_update@,
            api_getter: self.api_getter,
            public: self.public,
            requested: self.requested,
        }
    }
}

impl PropertyBuilder {
    /// A builder whose properties are initialised, wrapped into a result,
    /// updated and given an api getter; everything else is empty.
    pub fn new() -> (r: PropertyBuilder)
        ensures
            r@ == (PropertyView {
                name: Seq::empty(),
                type_s: Seq::empty(),
                result: true,
                documentation: Seq::empty(),
                initialise: true,
                initialisation: None,
                update: None,
                should_update: true,
                method_name: None,
                enum_name: Seq::empty(),
                value_name: None,
                functions: Seq::empty(),
                transmutable: Seq::empty(),
                default_args: Seq::empty(),
                default_args_update: Seq::empty(),
                api_getter: true,
                public: false,
                requested: false,
            }),
    {
        let r = PropertyBuilder {
            name: String::new(),
            type_s: String::new(),
            result: true,
            documentation: String::new(),
            initialise: true,
            initialisation: None,
            update: None,
            should_update: true,
            method_name: None,
            enum_name: String::new(),
            value_name: None,
            functions: Vec::new(),
            transmutable: Vec::new(),
            default_args: String::new(),
            default_args_update: String::new(),
            api_getter: true,
            public: false,
            requested: false,
        };
        assert(pairs_view(r.functions@) =~= Seq::empty());
        assert(strings_view(r.transmutable@) =~= Seq::empty());
        r
    }

    /// A copy of this builder.
    pub fn copy(&self) -> (r: PropertyBuilder)
        ensures
            r@ == self@,
    {
        PropertyBuilder {
            name: self.name.clone(),
            type_s: self.type_s.clone(),
            result: self.result,
            documentation: self.documentation.clone(),
            initialise: self.initialise,
            initialisation: clone_opt(&self.initialisation),
            update: clone_opt(&self.update),
            should_update: self.should_update,
            method_name: clone_opt(&self.method_name),
            enum_name: self.enum_name.clone(),
            value_name: clone_opt(&self.value_name),
            functions: clone_pairs(&self.functions),
            transmutable: clone_strings(&self.transmutable),
            default_args: self.default_args.clone(),
            default_args_update: self.default_args_update.clone(),
            api_getter: self.api_getter,
            public: self.public,
            requested: self.requested,
        }
    }

    pub fn name(&self, name: &str) -> (r: PropertyBuilder)
        ensures
            r@ == (PropertyView { name: name@, ..self@ }),
    {
        let mut res = self.copy();
        res.name = name.to_owned();
        res
    }

    pub fn type_s(&self, type_s: &str) -> (r: PropertyBuilder)
        ensures
            r@ == (PropertyView { type_s: type_s@, ..self@ }),
    {
        let mut res = self.copy();
        res.type_s = type_s.to_owned();
        res
    }

    pub fn result(&self, result: bool) -> (r: PropertyBuilder)
        ensures
            r@ == (PropertyView { result: result, ..self@ }),
    {
        let mut res = self.copy();
        res.result = result;
        res
    }

    pub fn documentation(&self, documentation: &str) -> (r: PropertyBuilder)
        ensures
            r@ == (PropertyView { documentation: documentation@, ..self@ }),
    {
        let mut res = self.copy();
        res.documentation = documentation.to_owned();
        res
    }

    pub fn initialise(&self, initialise: bool) -> (r: PropertyBuilder)
        ensures
            r@ == (PropertyView { initialise: initialise, ..self@ }),
    {
        let mut res = self.copy();
        res.initialise = initialise;
        res
    }

    pub fn initialisation(&self, initialisation: &str) -> (r: PropertyBuilder)
        ensures
            r@ == (PropertyView { initialisation: Some(initialisation@), ..self@ }),
    {
        let mut res = self.copy();
        res.initialisation = Some(initialisation.to_owned());
        res
    }

    pub fn update(&self, update: &str) -> (r: PropertyBuilder)
        ensures
            r@ == (PropertyView { update: Some(update@), ..self@ }),
    {
        let mut res = self.copy();
        res.update = Some(update.to_owned());
        res
    }

    pub fn should_update(&self, should_update: bool) -> (r: PropertyBuilder)
        ensures
            r@ == (PropertyView { should_update: should_update, ..self@ }),
    {
        let mut res = self.copy();
        res.should_update = should_update;
        res
    }

    pub fn method_name(&self, method_name: &str) -> (r: PropertyBuilder)
        ensures
            r@ == (PropertyView { method_name: Some(method_name@), ..self@ }),
    {
        let mut res = self.copy();
        res.method_name = Some(method_name.to_owned());
        res
    }

    pub fn enum_name(&self, enum_name: &str) -> (r: PropertyBuilder)
        ensures
            r@ == (PropertyView { enum_name: enum_name@, ..self@ }),
    {
        let mut res = self.copy();
        res.enum_name = enum_name.to_owned();
        res
    }

    pub fn value_name(&self, value_name: &str) -> (r: PropertyBuilder)
        ensures
            r@ == (PropertyView { value_name: Some(value_name@), ..self@ }),
    {
        let mut res = self.copy();
        res.value_name = Some(value_name.to_owned());
        res
    }

    pub fn functions(&self, functions: &Vec<(String, String)>) -> (r: PropertyBuilder)
        ensures
            r@ == (PropertyView { functions: pairs_view(functions@), ..self@ }),
    {
        let mut res = self.copy();
        res.functions = clone_pairs(functions);
        res
    }

    pub fn transmutable(&self, transmutable: &Vec<String>) -> (r: PropertyBuilder)
        ensures
            r@ == (PropertyView { transmutable: strings_view(transmutable@), ..self@ }),
    {
        let mut res = self.copy();
        res.transmutable = clone_strings(transmutable);
        res
    }

    pub fn default_args(&self, default_args: &str) -> (r: PropertyBuilder)
        ensures
            r@ == (PropertyView { default_args: default_args@, ..self@ }),
    {
        let mut res = self.copy();
        res.default_args = default_args.to_owned();
        res
    }

    pub fn default_args_update(&self, default_args_update: &str) -> (r: PropertyBuilder)
        ensures
            r@ == (PropertyView { default_args_update: default_args_update@, ..self@ }),
    {
        let mut res = self.copy();
        res.default_args_update = default_args_update.to_owned();
        res
    }

    pub fn api_getter(&self, api_getter: bool) -> (r: PropertyBuilder)
        ensures
            r@ == (PropertyView { api_getter: api_getter, ..self@ }),
    {
        let mut res = self.copy();
        res.api_getter = api_getter;
        res
    }

    pub fn public(&self, public: bool) -> (r: PropertyBuilder)
        ensures
            r@ == (PropertyView { public: public, ..self@ }),
    {
        let mut res = self.copy();
        res.public = public;
        res
    }

    pub fn requested(&self, requested: bool) -> (r: PropertyBuilder)
        ensures
            r@ == (PropertyView { requested: requested, ..self@ }),
    {
        let mut res = self.copy();
        res.requested = requested;
        res
    }

    /// The property description that this builder describes.
    pub fn finalize(self) -> (r: Property)
        ensures
            r@ == self@,
    {
        Property {
            name: self.name,
            type_s: self.type_s,
            result: self.result,
            documentation: self.documentation,
            initialise: self.initialise,
            initialisation: self.initialisation,
            update: self.update,
            should_update: self.should_update,
            method_name: self.method_name,
            enum_name: self.enum_name,
            value_name: self.value_name,
            functions: self.functions,
            transmutable: self.transmutable,
            default_args: self.default_args,
            default_args_update: self.default_args_update,
            api_getter: self.api_getter,
            public: self.public,
            requested: self.requested,
        }
    }
}


// ******************** Code of a property ********************

/// Whether values of a type are handed out by reference.
pub open spec fn is_ref_type_spec(t: Seq<char>) -> bool {
    ||| t == "String"@
    ||| t == "Permissions"@
    ||| "Option"@.is_prefix_of(t)
    ||| "Map<"@.is_prefix_of(t)
    ||| "Vec<"@.is_prefix_of(t)
}

/// A type as it is handed out: `str` in place of `String`.
pub open spec fn borrowed_type(t: Seq<char>) -> Seq<char> {
    if t == "String"@ {
        "str"@
    } else {
        t
    }
}

/// The return type of the getter of a property.
pub open spec fn return_type_spec(p: PropertyView) -> Seq<char> {
    (if p.result { "Result<"@ } else { Seq::empty() }) + (if is_ref_type_spec(p.type_s) {
        "&"@
    } else {
        Seq::empty()
    }) + borrowed_type(p.type_s) + (if p.result { ", ::Error>"@ } else { Seq::empty() })
}

/// The type of a property when it is borrowed for the lifetime `'a`.
pub open spec fn ref_type_spec(p: PropertyView) -> Seq<char> {
    (if is_ref_type_spec(p.type_s) { "&'a "@ } else { Seq::empty() }) + borrowed_type(p.type_s)
}

/// The body of the getter of a property.
pub open spec fn getter_body_spec(p: PropertyView) -> Seq<char> {
    let is_ref = is_ref_type_spec(p.type_s);
    (if !p.result && is_ref { "&"@ } else { Seq::empty() }) + "self."@ + p.name + (if p.result
        && is_ref {
        ".as_ref()"@ + (if p.type_s == "String"@ {
            ".map(|v| v.as_str())"@
        } else {
            Seq::empty()
        }) + ".map_err(|e| *e)"@
    } else {
        Seq::empty()
    })
}

/// The enum value that names a property: its value name, or its name in
/// pascal case.
pub open spec fn value_name_of(p: PropertyView) -> Seq<char> {
    match p.value_name {
        Some(v) => v,
        None => pascal_case(p.name),
    }
}

/// The call of `function` that fetches a property.
pub open spec fn call_text(p: PropertyView, function: Seq<char>, args: Seq<char>) -> Seq<char> {
    function + "("@ + args + p.enum_name + "::"@ + value_name_of(p) + ")"@
}

/// The function that fetches integers: the one for `i32`, else the one for
/// `u64`.
pub open spec fn int_function(p: PropertyView) -> Option<Seq<char>> {
    match lookup(p.functions, "i32"@) {
        Some(f) => Some(f),
        None => lookup(p.functions, "u64"@),
    }
}

/// The function that fetches a number of seconds: the one for `u64`, else
/// the one for `i32`, else `get_property_as_int`.
pub open spec fn seconds_function(p: PropertyView) -> Seq<char> {
    match lookup(p.functions, "u64"@) {
        Some(f) => f,
        None => match lookup(p.functions, "i32"@) {
            Some(f) => f,
            None => "get_property_as_int"@,
        },
    }
}

/// The code that fetches a property from TeamSpeak (`update` tells whether
/// it is for the update method); empty if no code is generated.
pub open spec fn initialisation_spec(p: PropertyView, args: Seq<char>, update: bool) -> Seq<char> {
    if !p.initialise || (update && !p.should_update) {
        Seq::empty()
    } else if update && p.update is Some {
        p.update->Some_0
    } else if p.initialisation is Some {
        p.initialisation->Some_0
    } else if p.method_name is Some {
        call_text(p, p.method_name->Some_0, args)
    } else if lookup(p.functions, p.type_s) is Some {
        call_text(p, lookup(p.functions, p.type_s)->Some_0, args)
    } else if p.transmutable.contains(p.type_s) {
        match int_function(p) {
            Some(f) => call_text(p, f, args) + ".map(|v| unsafe { transmute(v) })"@,
            None => Seq::empty(),
        }
    } else if p.type_s == "Duration"@ {
        call_text(p, seconds_function(p), args) + ".map(|d| Duration::seconds(d as i64))"@
    } else if p.type_s == "DateTime<Utc>"@ {
        call_text(p, seconds_function(p), args)
            + ".map(|d| DateTime::from_utc(chrono::NaiveDateTime::from_timestamp(d as i64, 0), chrono::Utc))"@
    } else if p.type_s == "bool"@ {
        match int_function(p) {
            Some(f) => call_text(p, f, args) + ".map(|v| v != 0)"@,
            None => Seq::empty(),
        }
    } else {
        Seq::empty()
    }
}

/// The code that initialises a property in the constructor.
pub open spec fn create_initialisation_spec(p: PropertyView) -> Seq<char> {
    if p.result {
        "Err(::Error::Ok)"@
    } else {
        initialisation_spec(p, p.default_args, false)
    }
}

/// The value of a property in the constructor: its initialisation, or the
/// constructor argument of the same name.
pub open spec fn constructor_body_spec(p: PropertyView) -> Seq<char> {
    let init = create_initialisation_spec(p);
    if init.len() == 0 {
        p.name
    } else {
        init
    }
}


impl Property {
    /// The name of the property.
    pub fn get_name(&self) -> (r: &String)
        ensures
            r@ == self@.name,
    {
        &self.name
    }

    /// The Rust type of the property.
    pub fn get_type(&self) -> (r: &String)
        ensures
            r@ == self@.type_s,
    {
        &self.type_s
    }

    /// The function that fetches values of a type, if one is known.
    fn function_for(&self, type_s: &str) -> (r: Option<&String>)
        ensures
            opt_view(match r {
                Some(f) => Some(*f),
                None => None,
            }) == lookup(self@.functions, type_s@),
    {
        let ghost fs = self@.functions;
        let mut i: usize = self.functions.len();
        assert(fs.take(i as int) =~= fs);
        while i > 0
            invariant
                fs == pairs_view(self.functions@),
                i <= self.functions.len(),
                lookup(fs, type_s@) == lookup(fs.take(i as int), type_s@),
            decreases i,
        {
            assert(fs.take(i as int).drop_last() =~= fs.take(i - 1));
            if same_text(self.functions[i - 1].0.as_str(), type_s) {
                return Some(&self.functions[i - 1].1);
            }
            i = i - 1;
        }
        None
    }

    /// Whether a type is transmuted from an integer.
    fn is_transmutable(&self, type_s: &str) -> (r: bool)
        ensures
            r == self@.transmutable.contains(type_s@),
    {
        let ghost ts = self@.transmutable;
        let mut i: usize = 0;
        while i < self.transmutable.len()
            invariant
                ts == strings_view(self.transmutable@),
                i <= self.transmutable.len(),
                forall|j: int| 0 <= j < i ==> ts[j] != type_s@,
            decreases self.transmutable.len() - i,
        {
            if same_text(self.transmutable[i].as_str(), type_s) {
                assert(ts[i as int] == type_s@);
                return true;
            }
            i = i + 1;
        }
        false
    }

    /// Whether the getter hands out a reference.
    pub fn is_ref_type(&self) -> (r: bool)
        ensures
            r == is_ref_type_spec(self@.type_s),
    {
        let t = self.type_s.as_str();
        same_text(t, "String") || same_text(t, "Permissions") || starts_with(t, "Option")
            || starts_with(t, "Map<") || starts_with(t, "Vec<")
    }

    /// The return type of the getter.
    pub fn create_return_type(&self) -> (r: String)
        ensures
            r@ == return_type_spec(self@),
    {
        let is_ref_type = self.is_ref_type();
        let mut result_type = String::new();
        if self.result {
            push_text(&mut result_type, "Result<");
        }
        if is_ref_type {
            push_text(&mut result_type, "&");
        }
        if same_text(self.type_s.as_str(), "String") {
            push_text(&mut result_type, "str");
        } else {
            push_text(&mut result_type, self.type_s.as_str());
        }
        if self.result {
            push_text(&mut result_type, ", ::Error>");
        }
        assert(result_type@ =~= return_type_spec(self@));
        result_type
    }

    /// The type of the property when it is borrowed for the lifetime `'a`.
    pub fn create_ref_type(&self) -> (r: String)
        ensures
            r@ == ref_type_spec(self@),
    {
        let is_ref_type = self.is_ref_type();
        let mut result_type = String::new();
        if is_ref_type {
            push_text(&mut result_type, "&'a ");
        }
        if same_text(self.type_s.as_str(), "String") {
            push_text(&mut result_type, "str");
        } else {
            push_text(&mut result_type, self.type_s.as_str());
        }
        assert(result_type@ =~= ref_type_spec(self@));
        result_type
    }

    /// The body of the getter.
    pub fn create_getter_body(&self) -> (r: String)
        ensures
            r@ == getter_body_spec(self@),
    {
        let is_ref_type = self.is_ref_type();
        let mut body = String::new();
        if !self.result && is_ref_type {
            push_text(&mut body, "&");
        }
        push_text(&mut body, "self.");
        push_text(&mut body, self.name.as_str());
        if self.result && is_ref_type {
            push_text(&mut body, ".as_ref()");
            if same_text(self.type_s.as_str(), "String") {
                push_text(&mut body, ".map(|v| v.as_str())");
            }
            push_text(&mut body, ".map_err(|e| *e)");
        }
        assert(body@ =~= getter_body_spec(self@));
        body
    }

    /// The value of the property in the constructor.
    pub fn create_constructor_body(&self) -> (r: String)
        ensures
            r@ == constructor_body_spec(self@),
    {
        let p = self.create_initialisation();
        if p.unicode_len() == 0 {
            self.name.clone()
        } else {
            p
        }
    }

    /// The code that updates the property.
    pub fn create_update_body(&self) -> (r: String)
        ensures
            r@ == initialisation_spec(self@, self@.default_args_update, true),
    {
        self.intern_create_initialisation(self.default_args_update.as_str(), true)
    }

    /// The code that initialises the property in the constructor: a
    /// property wrapped into a result starts out as `Err(::Error::Ok)`.
    pub fn create_initialisation(&self) -> (r: String)
        ensures
            r@ == create_initialisation_spec(self@),
    {
        if self.result {
            "Err(::Error::Ok)".to_owned()
        } else {
            self.intern_create_initialisation(self.default_args.as_str(), false)
        }
    }

    /// The call of `function` that fetches this property.
    fn call(&self, function: &str, default_args: &str, value_name: &str) -> (r: String)
        requires
            value_name@ == value_name_of(self@),
        ensures
            r@ == call_text(self@, function@, default_args@),
    {
        let mut s = String::new();
        push_text(&mut s, function);
        push_text(&mut s, "(");
        push_text(&mut s, default_args);
        push_text(&mut s, self.enum_name.as_str());
        push_text(&mut s, "::");
        push_text(&mut s, value_name);
        push_text(&mut s, ")");
        assert(s@ =~= call_text(self@, function@, default_args@));
        s
    }

    /// The function that fetches integers.
    fn int_function(&self) -> (r: Option<&String>)
        ensures
            opt_view(match r {
                Some(f) => Some(*f),
                None => None,
            }) == int_function(self@),
    {
        match self.function_for("i32") {
            Some(f) => Some(f),
            None => self.function_for("u64"),
        }
    }

    /// The code that fetches the property from TeamSpeak, for the
    /// constructor or (if `update`) for the update method.
    pub fn intern_create_initialisation(&self, default_args: &str, update: bool) -> (r: String)
        ensures
            r@ == initialisation_spec(self@, default_args@, update),
    {
        if !self.initialise || (update && !self.should_update) {
            return String::new();
        } else if update && self.update.is_some() {
            return match &self.update {
                Some(u) => u.clone(),
                None => String::new(),
            };
        } else if self.initialisation.is_some() {
            return match &self.initialisation {
                Some(i) => i.clone(),
                None => String::new(),
            };
        }
        let value_name = match &self.value_name {
            Some(v) => v.clone(),
            None => to_pascal_case(self.name.as_str()),
        };
        let value_name = value_name.as_str();
        let type_s = self.type_s.as_str();
        let mut s = String::new();
        if let Some(function) = &self.method_name {
            // Special defined function
            s = self.call(function.as_str(), default_args, value_name);
        } else if let Some(function) = self.function_for(type_s) {
            // From function list
            s = self.call(function.as_str(), default_args, value_name);
        } else if self.is_transmutable(type_s) {
            // Try to get an int
            if let Some(function) = self.int_function() {
                s = self.call(function.as_str(), default_args, value_name);
                push_text(&mut s, ".map(|v| unsafe { transmute(v) })");
            }
        } else if same_text(type_s, "Duration") || same_text(type_s, "DateTime<Utc>") {
            // Try to get an u64
            let function: &str = match self.function_for("u64") {
                Some(f) => f.as_str(),
                None => match self.function_for("i32") {
                    Some(f) => f.as_str(),
                    None => "get_property_as_int",
                },
            };
            s = self.call(function, default_args, value_name);
            if same_text(type_s, "Duration") {
                push_text(&mut s, ".map(|d| Duration::seconds(d as i64))");
            } else {
                push_text(
                    &mut s,
                    ".map(|d| DateTime::from_utc(chrono::NaiveDateTime::from_timestamp(d as i64, 0), chrono::Utc))",
                );
            }
        } else if same_text(type_s, "bool") {
            if let Some(function) = self.int_function() {
                s = self.call(function.as_str(), default_args, value_name);
                push_text(&mut s, ".map(|v| v != 0)");
            }
        }
        s
    }
}



/// What a fresh `PropertyBuilder` holds.
pub open spec fn new_property() -> PropertyView {
    PropertyView {
        name: Seq::empty(),
        type_s: Seq::empty(),
        result: true,
        documentation: Seq::empty(),
        initialise: true,
        initialisation: None,
        update: None,
        should_update: true,
        method_name: None,
        enum_name: Seq::empty(),
        value_name: None,
        functions: Seq::empty(),
        transmutable: Seq::empty(),
        default_args: Seq::empty(),
        default_args_update: Seq::empty(),
        api_getter: true,
        public: false,
        requested: false,
    }
}

/// What a fresh `StructBuilder` holds.
pub open spec fn new_struct() -> StructView {
    StructView {
        name: Seq::empty(),
        api_name: Seq::empty(),
        documentation: Seq::empty(),
        properties: Seq::empty(),
        extra_attributes: Seq::empty(),
        extra_initialisation: Seq::empty(),
        extra_creation: Seq::empty(),
        extra_implementation: Seq::empty(),
        extra_property_type: Seq::empty(),
        extra_property_list: Seq::empty(),
        extra_properties: Seq::empty(),
        constructor_args: Seq::empty(),
        public: false,
        do_struct: true,
        do_impl: true,
        do_api_impl: false,
        do_update: true,
        do_constructor: true,
        do_properties: false,
    }
}

/// A property description with another name and type.
pub open spec fn prop(base: PropertyView, name: Seq<char>, type_s: Seq<char>) -> PropertyView {
    PropertyView { name, type_s, ..base }
}

/// A property description with another value name.
pub open spec fn with_value_name(p: PropertyView, value_name: Seq<char>) -> PropertyView {
    PropertyView { value_name: Some(value_name), ..p }
}

/// A property description with other documentation.
pub open spec fn with_doc(p: PropertyView, documentation: Seq<char>) -> PropertyView {
    PropertyView { documentation, ..p }
}

/// A property that is neither wrapped into a result nor given an api getter
/// (the ids of a struct).
pub open spec fn plain_id(p: PropertyView) -> PropertyView {
    PropertyView { result: false, api_getter: false, ..p }
}

/// Pairs of strings.
pub fn string_pair(a: &str, b: &str) -> (r: (String, String))
    ensures
        r.0@ == a@,
        r.1@ == b@,
{
    (a.to_owned(), b.to_owned())
}

// ******************** Structs ********************

/// The views of a list of properties.
pub open spec fn properties_view(s: Seq<Property>) -> Seq<PropertyView> {
    s.map_values(|p: Property| p@)
}

/// The views of a list of string triples.
pub open spec fn triples_view(s: Seq<(String, String, String)>) -> Seq<(Seq<char>, Seq<char>, Seq<char>)> {
    s.map_values(|t: (String, String, String)| (t.0@, t.1@, t.2@))
}

impl Property {
    /// A copy of this property description.
    pub fn copy(&self) -> (r: Property)
        ensures
            r@ == self@,
    {
        Property {
            name: self.name.clone(),
            type_s: self.type_s.clone(),
            result: self.result,
            documentation: self.documentation.clone(),
            initialise: self.initialise,
            initialisation: clone_opt(&self.initialisation),
            update: clone_opt(&self.update),
            should_update: self.should_update,
            method_name: clone_opt(&self.method_name),
            enum_name: self.enum_name.clone(),
            value_name: clone_opt(&self.value_name),
            functions: clone_pairs(&self.functions),
            transmutable: clone_strings(&self.transmutable),
            default_args: self.default_args.clone(),
            default_args_update: self.default_args_update.clone(),
            api_getter: self.api_getter,
            public: self.public,
            requested: self.requested,
        }
    }
}

fn clone_properties(v: &Vec<Property>) -> (r: Vec<Property>)
    ensures
        properties_view(r@) == properties_view(v@),
{
    let mut r: Vec<Property> = Vec::new();
    let mut i: usize = 0;
    while i < v.len()
        invariant
            i <= v.len(),
            r.len() == i,
            forall|j: int| 0 <= j < i ==> #[trigger] r@[j]@ == v@[j]@,
        decreases v.len() - i,
    {
        r.push(v[i].copy());
        i = i + 1;
    }
    assert(properties_view(r@) =~= properties_view(v@));
    r
}

fn clone_triples(v: &Vec<(String, String, String)>) -> (r: Vec<(String, String, String)>)
    ensures
        triples_view(r@) == triples_view(v@),
{
    let mut r: Vec<(String, String, String)> = Vec::new();
    let mut i: usize = 0;
    while i < v.len()
        invariant
            i <= v.len(),
            r.len() == i,
            forall|j: int| 0 <= j < i ==> #[trigger] r@[j].0@ == v@[j].0@ && r@[j].1@ == v@[j].1@
                && r@[j].2@ == v@[j].2@,
        decreases v.len() - i,
    {
        let (a, b, c) = &v[i];
        r.push((a.clone(), b.clone(), c.clone()));
        i = i + 1;
    }
    assert(triples_view(r@) =~= triples_view(v@));
    r
}

/// What a struct description (or a builder of one) holds.
pub struct StructView {
    pub name: Seq<char>,
    pub api_name: Seq<char>,
    pub documentation: Seq<char>,
    pub properties: Seq<PropertyView>,
    pub extra_attributes: Seq<char>,
    pub extra_initialisation: Seq<char>,
    pub extra_creation: Seq<char>,
    pub extra_implementation: Seq<char>,
    pub extra_property_type: Seq<char>,
    pub extra_property_list: Seq<(Seq<char>, Seq<char>, Seq<char>)>,
    pub extra_properties: Seq<char>,
    pub constructor_args: Seq<char>,
    pub public: bool,
    pub do_struct: bool,
    pub do_impl: bool,
    pub do_api_impl: bool,
    pub do_update: bool,
    pub do_constructor: bool,
    pub do_properties: bool,
}

/// The description of a data struct and of the code to generate for it.
pub struct Struct {
    /// The name of this struct
    name: String,
    /// The name of this struct when exposed by the api
    api_name: String,
    /// The documentation of this struct
    documentation: String,
    /// Members that will be generated for this struct
    properties: Vec<Property>,
    /// Code that will be put into the struct part
    extra_attributes: String,
    /// Code that will be inserted into the constructor (::new method)
    extra_initialisation: String,
    /// Code that will be inserted into the creation of the struct
    extra_creation: String,
    /// Code that will be inserted into the Implementation of the struct
    extra_implementation: String,
    /// Code that will be inserted into the PropertyType enum
    extra_property_type: String,
    /// Code that will be inserted into the PropertyList enum
    /// (type, ref type, enum name)
    extra_property_list: Vec<(String, String, String)>,
    /// Code that will be inserted into the properties() function
    extra_properties: String,
    /// Arguments that are taken by the constructor
    constructor_args: String,
    /// If the resulting struct is public
    public: bool,
    /// If the struct is generated
    do_struct: bool,
    /// If the getters are generated
    do_impl: bool,
    /// If the getters of the api handle are generated
    do_api_impl: bool,
    /// If the update methods are generated
    do_update: bool,
    /// If the constructor is generated
    do_constructor: bool,
    /// If the property list is generated
    do_properties: bool,
}

impl View for Struct {
    type V = StructView;

    closed spec fn view(&self) -> StructView {
        StructView {
            name: self.name@,
            api_name: self.api_name@,
            documentation: self.documentation@,
            properties: properties_view(self.properties@),
            extra_attributes: self.extra_attributes@,
            extra_initialisation: self.extra_initialisation@,
            extra_creation: self.extra_creation@,
            extra_implementation: self.extra_implementation@,
            extra_property_type: self.extra_property_type@,
            extra_property_list: triples_view(self.extra_property_list@),
            extra_properties: self.extra_properties@,
            constructor_args: self.constructor_args@,
            public: self.public,
            do_struct: self.do_struct,
            do_impl: self.do_impl,
            do_api_impl: self.do_api_impl,
            do_update: self.do_update,
            do_constructor: self.do_constructor,
            do_properties: self.do_properties,
        }
    }
}

/// A builder of struct descriptions: each setter returns a changed copy.
pub struct StructBuilder {
    name: String,
    api_name: String,
    documentation: String,
    properties: Vec<Property>,
    extra_attributes: String,
    extra_initialisation: String,
    extra_creation: String,
    extra_implementation: String,
    extra_property_type: String,
    extra_property_list: Vec<(String, String, String)>,
    extra_properties: String,
    constructor_args: String,
    public: bool,
    do_struct: bool,
    do_impl: bool,
    do_api_impl: bool,
    do_update: bool,
    do_constructor: bool,
    do_properties: bool,
}

impl View for StructBuilder {
    type V = StructView;

    closed spec fn view(&self) -> StructView {
        StructView {
            name: self.name@,
            api_name: self.api_name@,
            documentation: self.documentation@,
            properties: properties_view(self.properties@),
            extra_attributes: self.extra_attributes@,
            extra_initialisation: self.extra_initialisation@,
            extra_creation: self.extra_creation@,
            extra_implementation: self.extra_implementation@,
            extra_property_type: self.extra_property_type@,
            extra_property_list: triples_view(self.extra_property_list@),
            extra_properties: self.extra_properties@,
            constructor_args: self.constructor_args@,
            public: self.public,
            do_struct: self.do_struct,
            do_impl: self.do_impl,
            do_api_impl: self.do_api_impl,
            do_update: self.do_update,
            do_constructor: self.do_constructor,
            do_properties: self.do_properties,
        }
    }
}

impl StructBuilder {
    /// A builder that generates the struct, its getters, its constructor and
    /// its update methods, and nothing else; everything else is empty.
    pub fn new() -> (r: StructBuilder)
        ensures
            r@ == (StructView {
                name: Seq::empty(),
                api_name: Seq::empty(),
                documentation: Seq::empty(),
                properties: Seq::empty(),
                extra_attributes: Seq::empty(),
                extra_initialisation: Seq::empty(),
                extra_creation: Seq::empty(),
                extra_implementation: Seq::empty(),
                extra_property_type: Seq::empty(),
                extra_property_list: Seq::empty(),
                extra_properties: Seq::empty(),
                constructor_args: Seq::empty(),
                public: false,
                do_struct: true,
                do_impl: true,
                do_api_impl: false,
                do_update: true,
                do_constructor: true,
                do_properties: false,
            }),
    {
        let r = StructBuilder {
            name: String::new(),
            api_name: String::new(),
            documentation: String::new(),
            properties: Vec::new(),
            extra_attributes: String::new(),
            extra_initialisation: String::new(),
            extra_creation: String::new(),
            extra_implementation: String::new(),
            extra_property_type: String::new(),
            extra_property_list: Vec::new(),
            extra_properties: String::new(),
            constructor_args: String::new(),
            public: false,
            do_struct: true,
            do_impl: true,
            do_api_impl: false,
            do_update: true,
            do_constructor: true,
            do_properties: false,
        };
        assert(properties_view(r.properties@) =~= Seq::empty());
        assert(triples_view(r.extra_property_list@) =~= Seq::empty());
        r
    }

    /// A copy of this builder.
    pub fn copy(&self) -> (r: StructBuilder)
        ensures
            r@ == self@,
    {
        StructBuilder {
            name: self.name.clone(),
            api_name: self.api_name.clone(),
            documentation: self.documentation.clone(),
            properties: clone_properties(&self.properties),
            extra_attributes: self.extra_attributes.clone(),
            extra_initialisation: self.extra_initialisation.clone(),
            extra_creation: self.extra_creation.clone(),
            extra_implementation: self.extra_implementation.clone(),
            extra_property_type: self.extra_property_type.clone(),
            extra_property_list: clone_triples(&self.extra_property_list),
            extra_properties: self.extra_properties.clone(),
            constructor_args: self.constructor_args.clone(),
            public: self.public,
            do_struct: self.do_struct,
            do_impl: self.do_impl,
            do_api_impl: self.do_api_impl,
            do_update: self.do_update,
            do_constructor: self.do_constructor,
            do_properties: self.do_properties,
        }
    }

    pub fn name(&mut self, name: &str) -> (r: StructBuilder)
        ensures
            final(self)@ == old(self)@,
            r@ == (StructView { name: name@, ..old(self)@ }),
    {
        let mut res = self.copy();
        res.name = name.to_owned();
        res
    }

    pub fn api_name(&mut self, api_name: &str) -> (r: StructBuilder)
        ensures
            final(self)@ == old(self)@,
            r@ == (StructView { api_name: api_name@, ..old(self)@ }),
    {
        let mut res = self.copy();
        res.api_name = api_name.to_owned();
        res
    }

    pub fn documentation(&mut self, documentation: &str) -> (r: StructBuilder)
        ensures
            final(self)@ == old(self)@,
            r@ == (StructView { documentation: documentation@, ..old(self)@ }),
    {
        let mut res = self.copy();
        res.documentation = documentation.to_owned();
        res
    }

    pub fn properties(&mut self, properties: Vec<Property>) -> (r: StructBuilder)
        ensures
            final(self)@ == old(self)@,
            r@ == (StructView { properties: properties_view(properties@), ..old(self)@ }),
    {
        let mut res = self.copy();
        res.properties = properties;
        res
    }

    pub fn extra_attributes(&mut self, extra_attributes: &str) -> (r: StructBuilder)
        ensures
            final(self)@ == old(self)@,
            r@ == (StructView { extra_attributes: extra_attributes@, ..old(self)@ }),
    {
        let mut res = self.copy();
        res.extra_attributes = extra_attributes.to_owned();
        res
    }

    pub fn extra_initialisation(&mut self, extra_initialisation: &str) -> (r: StructBuilder)
        ensures
            final(self)@ == old(self)@,
            r@ == (StructView { extra_initialisation: extra_initialisation@, ..old(self)@ }),
    {
        let mut res = self.copy();
        res.extra_initialisation = extra_initialisation.to_owned();
        res
    }

    pub fn extra_creation(&mut self, extra_creation: &str) -> (r: StructBuilder)
        ensures
            final(self)@ == old(self)@,
            r@ == (StructView { extra_creation: extra_creation@, ..old(self)@ }),
    {
        let mut res = self.copy();
        res.extra_creation = extra_creation.to_owned();
        res
    }

    pub fn extra_implementation(&mut self, extra_implementation: &str) -> (r: StructBuilder)
        ensures
            final(self)@ == old(self)@,
            r@ == (StructView { extra_implementation: extra_implementation@, ..old(self)@ }),
    {
        let mut res = self.copy();
        res.extra_implementation = extra_implementation.to_owned();
        res
    }

    pub fn extra_property_type(&mut self, extra_property_type: &str) -> (r: StructBuilder)
        ensures
            final(self)@ == old(self)@,
            r@ == (StructView { extra_property_type: extra_property_type@, ..old(self)@ }),
    {
        let mut res = self.copy();
        res.extra_property_type = extra_property_type.to_owned();
        res
    }

    pub fn extra_property_list(&mut self, extra_property_list: Vec<(String, String, String)>) -> (r: StructBuilder)
        ensures
            final(self)@ == old(self)@,
            r@ == (StructView { extra_property_list: triples_view(extra_property_list@), ..old(self)@ }),
    {
        let mut res = self.copy();
        res.extra_property_list = extra_property_list;
        res
    }

    pub fn extra_properties(&mut self, extra_properties: &str) -> (r: StructBuilder)
        ensures
            final(self)@ == old(self)@,
            r@ == (StructView { extra_properties: extra_properties@, ..old(self)@ }),
    {
        let mut res = self.copy();
        res.extra_properties = extra_properties.to_owned();
        res
    }

    pub fn constructor_args(&mut self, constructor_args: &str) -> (r: StructBuilder)
        ensures
            final(self)@ == old(self)@,
            r@ == (StructView { constructor_args: constructor_args@, ..old(self)@ }),
    {
        let mut res = self.copy();
        res.constructor_args = constructor_args.to_owned();
        res
    }

    pub fn public(&mut self, public: bool) -> (r: StructBuilder)
        ensures
            final(self)@ == old(self)@,
            r@ == (StructView { public: public, ..old(self)@ }),
    {
        let mut res = self.copy();
        res.public = public;
        res
    }

    pub fn do_struct(&mut self, do_struct: bool) -> (r: StructBuilder)
        ensures
            final(self)@ == old(self)@,
            r@ == (StructView { do_struct: do_struct, ..old(self)@ }),
    {
        let mut res = self.copy();
        res.do_struct = do_struct;
        res
    }

    pub fn do_impl(&mut self, do_impl: bool) -> (r: StructBuilder)
        ensures
            final(self)@ == old(self)@,
            r@ == (StructView { do_impl: do_impl, ..old(self)@ }),
    {
        let mut res = self.copy();
        res.do_impl = do_impl;
        res
    }

    pub fn do_api_impl(&mut self, do_api_impl: bool) -> (r: StructBuilder)
        ensures
            final(self)@ == old(self)@,
            r@ == (StructView { do_api_impl: do_api_impl, ..old(self)@ }),
    {
        let mut res = self.copy();
        res.do_api_impl = do_api_impl;
        res
    }

    pub fn do_update(&mut self, do_update: bool) -> (r: StructBuilder)
        ensures
            final(self)@ == old(self)@,
            r@ == (StructView { do_update: do_update, ..old(self)@ }),
    {
        let mut res = self.copy();
        res.do_update = do_update;
        res
    }

    pub fn do_constructor(&mut self, do_constructor: bool) -> (r: StructBuilder)
        ensures
            final(self)@ == old(self)@,
            r@ == (StructView { do_constructor: do_constructor, ..old(self)@ }),
    {
        let mut res = self.copy();
        res.do_constructor = do_constructor;
        res
    }

    pub fn do_properties(&mut self, do_properties: bool) -> (r: StructBuilder)
        ensures
            final(self)@ == old(self)@,
            r@ == (StructView { do_properties: do_properties, ..old(self)@ }),
    {
        let mut res = self.copy();
        res.do_properties = do_properties;
        res
    }

    /// The struct description that this builder describes.
    pub fn finalize(self) -> (r: Struct)
        ensures
            r@ == self@,
    {
        Struct {
            name: self.name,
            api_name: self.api_name,
            documentation: self.documentation,
            properties: self.properties,
            extra_attributes: self.extra_attributes,
            extra_initialisation: self.extra_initialisation,
            extra_creation: self.extra_creation,
            extra_implementation: self.extra_implementation,
            extra_property_type: self.extra_property_type,
            extra_property_list: self.extra_property_list,
            extra_properties: self.extra_properties,
            constructor_args: self.constructor_args,
            public: self.public,
            do_struct: self.do_struct,
            do_impl: self.do_impl,
            do_api_impl: self.do_api_impl,
            do_update: self.do_update,
            do_constructor: self.do_constructor,
            do_properties: self.do_properties,
        }
    }
}

impl Struct {
    /// The name of this struct.
    pub fn get_name(&self) -> (r: &String)
        ensures
            r@ == self@.name,
    {
        &self.name
    }

    /// The name of the api handle of this struct.
    pub fn get_api_name(&self) -> (r: &String)
        ensures
            r@ == self@.api_name,
    {
        &self.api_name
    }

    /// The properties of this struct.
    pub fn get_properties(&self) -> (r: &Vec<Property>)
        ensures
            properties_view(r@) == self@.properties,
    {
        &self.properties
    }
}


// ******************** Assembling the properties of an api type ********************

/// Whether a property of the given name is in a list.
pub open spec fn has_property(ps: Seq<PropertyView>, name: Seq<char>) -> bool {
    exists|i: int| 0 <= i < ps.len() && #[trigger] ps[i].name == name
}

/// The list `acc` extended by the properties of `ps` whose name it does not
/// hold yet, in order.
pub open spec fn add_new_properties(acc: Seq<PropertyView>, ps: Seq<PropertyView>) -> Seq<PropertyView>
    decreases ps.len(),
{
    if ps.len() == 0 {
        acc
    } else {
        let a = add_new_properties(acc, ps.drop_last());
        if has_property(a, ps.last().name) {
            a
        } else {
            a.push(ps.last())
        }
    }
}

/// The properties of all structs with the given api name, the first of each
/// name only, in order.
pub open spec fn api_properties(structs: Seq<StructView>, api_name: Seq<char>) -> Seq<PropertyView>
    decreases structs.len(),
{
    if structs.len() == 0 {
        Seq::empty()
    } else {
        let acc = api_properties(structs.drop_last(), api_name);
        if structs.last().api_name == api_name {
            add_new_properties(acc, structs.last().properties)
        } else {
            acc
        }
    }
}

/// The list `acc` extended by `entry`, unless an entry with the first part
/// `key` is in it already.
pub open spec fn add_type(
    acc: Seq<(Seq<char>, Seq<char>)>,
    key: Seq<char>,
    entry: (Seq<char>, Seq<char>),
) -> Seq<(Seq<char>, Seq<char>)> {
    if exists|i: int| 0 <= i < acc.len() && #[trigger] acc[i].0 == key {
        acc
    } else {
        acc.push(entry)
    }
}

/// The list `acc` extended by the (type, borrowed type) pairs of the
/// properties that have an api getter and are wrapped into a result.
pub open spec fn add_property_types(acc: Seq<(Seq<char>, Seq<char>)>, ps: Seq<PropertyView>) -> Seq<(Seq<char>, Seq<char>)>
    decreases ps.len(),
{
    if ps.len() == 0 {
        acc
    } else {
        let a = add_property_types(acc, ps.drop_last());
        let p = ps.last();
        if p.result && p.api_getter {
            add_type(a, p.type_s, (p.type_s, ref_type_spec(p)))
        } else {
            a
        }
    }
}

/// The list `acc` extended by the (reference name, type) pairs of extra
/// properties (an entry is left out if `acc` holds the type as a first part).
pub open spec fn add_extra_types(
    acc: Seq<(Seq<char>, Seq<char>)>,
    extras: Seq<(Seq<char>, Seq<char>, Seq<char>)>,
) -> Seq<(Seq<char>, Seq<char>)>
    decreases extras.len(),
{
    if extras.len() == 0 {
        acc
    } else {
        let a = add_extra_types(acc, extras.drop_last());
        let e = extras.last();
        add_type(a, e.0, (e.1, e.0))
    }
}

/// The property types of all structs with the given api name.
pub open spec fn api_property_types(structs: Seq<StructView>, api_name: Seq<char>) -> Seq<(Seq<char>, Seq<char>)>
    decreases structs.len(),
{
    if structs.len() == 0 {
        Seq::empty()
    } else {
        let acc = api_property_types(structs.drop_last(), api_name);
        let s = structs.last();
        if s.api_name == api_name {
            add_extra_types(add_property_types(acc, s.properties), s.extra_property_list)
        } else {
            acc
        }
    }
}

/// The views of a list of struct references.
pub open spec fn struct_refs_view(s: Seq<&Struct>) -> Seq<StructView> {
    s.map_values(|x: &Struct| x@)
}

/// The views of a list of property references.
pub open spec fn property_refs_view(s: Seq<&Property>) -> Seq<PropertyView> {
    s.map_values(|x: &Property| x@)
}

/// Whether a list of (type, ...) pairs holds the given type as a first part.
fn holds_type(types: &Vec<(String, String)>, t: &str) -> (r: bool)
    ensures
        r == exists|i: int| 0 <= i < types@.len() && #[trigger] pairs_view(types@)[i].0 == t@,
{
    let mut i: usize = 0;
    while i < types.len()
        invariant
            i <= types.len(),
            forall|j: int| 0 <= j < i ==> #[trigger] pairs_view(types@)[j].0 != t@,
        decreases types.len() - i,
    {
        if same_text(types[i].0.as_str(), t) {
            assert(pairs_view(types@)[i as int].0 == t@);
            return true;
        }
        i = i + 1;
    }
    false
}

/// Whether a list of property references holds one of the given name.
fn has_property_named(properties: &Vec<&Property>, name: &str) -> (r: bool)
    ensures
        r == has_property(property_refs_view(properties@), name@),
{
    let mut k: usize = 0;
    while k < properties.len()
        invariant
            k <= properties.len(),
            forall|m: int| 0 <= m < k ==> #[trigger] property_refs_view(properties@)[m].name != name@,
        decreases properties.len() - k,
    {
        if same_text(properties[k].name.as_str(), name) {
            assert(property_refs_view(properties@)[k as int].name == name@);
            return true;
        }
        k = k + 1;
    }
    false
}

impl Struct {
    /// The properties of all structs (of `all_structs`) with the api name of
    /// this struct, each name only once (the first property of the name
    /// counts), in order.
    pub fn collect_properties<'s>(&self, all_structs: &[&'s Struct]) -> (r: Vec<&'s Property>)
        ensures
            property_refs_view(r@) == api_properties(struct_refs_view(all_structs@), self@.api_name),
    {
        let ghost structs = struct_refs_view(all_structs@);
        let mut properties: Vec<&'s Property> = Vec::new();
        let mut i: usize = 0;
        assert(structs.take(0) =~= Seq::<StructView>::empty());
        assert(property_refs_view(properties@) =~= Seq::<PropertyView>::empty());
        while i < all_structs.len()
            invariant
                structs == struct_refs_view(all_structs@),
                i <= all_structs.len(),
                property_refs_view(properties@) == api_properties(structs.take(i as int), self@.api_name),
            decreases all_structs.len() - i,
        {
            assert(structs.take(i + 1).drop_last() =~= structs.take(i as int));
            let s: &'s Struct = all_structs[i];
            if same_text(s.api_name.as_str(), self.api_name.as_str()) {
                let ghost acc = property_refs_view(properties@);
                let ghost ps = s@.properties;
                let mut j: usize = 0;
                assert(ps.take(0) =~= Seq::<PropertyView>::empty());
                while j < s.properties.len()
                    invariant
                        ps == properties_view(s.properties@),
                        j <= s.properties.len(),
                        property_refs_view(properties@) == add_new_properties(acc, ps.take(j as int)),
                    decreases s.properties.len() - j,
                {
                    assert(ps.take(j + 1).drop_last() =~= ps.take(j as int));
                    let p: &'s Property = &s.properties[j];
                    if !has_property_named(&properties, p.name.as_str()) {
                        let ghost before = property_refs_view(properties@);
                        properties.push(p);
                        assert(property_refs_view(properties@) =~= before.push(p@));
                    }
                    j = j + 1;
                }
                assert(ps.take(s.properties.len() as int) =~= ps);
            }
            i = i + 1;
        }
        assert(structs.take(all_structs.len() as int) =~= structs);
        properties
    }

    /// The (type, borrowed type) pairs of the properties with an api getter
    /// that are wrapped into a result, and the (reference name, type) pairs
    /// of the extra properties, of all structs with the api name of this
    /// struct; an entry is left out if a type that is equal to its type was
    /// added before.
    pub fn collect_property_types(&self, all_structs: &[&Struct]) -> (r: Vec<(String, String)>)
        ensures
            pairs_view(r@) == api_property_types(struct_refs_view(all_structs@), self@.api_name),
    {
        let ghost structs = struct_refs_view(all_structs@);
        let mut types: Vec<(String, String)> = Vec::new();
        let mut i: usize = 0;
        assert(structs.take(0) =~= Seq::<StructView>::empty());
        assert(pairs_view(types@) =~= Seq::<(Seq<char>, Seq<char>)>::empty());
        while i < all_structs.len()
            invariant
                structs == struct_refs_view(all_structs@),
                i <= all_structs.len(),
                pairs_view(types@) == api_property_types(structs.take(i as int), self@.api_name),
            decreases all_structs.len() - i,
        {
            assert(structs.take(i + 1).drop_last() =~= structs.take(i as int));
            let s = all_structs[i];
            if same_text(s.api_name.as_str(), self.api_name.as_str()) {
                let ghost acc = pairs_view(types@);
                let ghost ps = s@.properties;
                let mut j: usize = 0;
                assert(ps.take(0) =~= Seq::<PropertyView>::empty());
                while j < s.properties.len()
                    invariant
                        ps == properties_view(s.properties@),
                        j <= s.properties.len(),
                        pairs_view(types@) == add_property_types(acc, ps.take(j as int)),
                    decreases s.properties.len() - j,
                {
                    assert(ps.take(j + 1).drop_last() =~= ps.take(j as int));
                    let p = &s.properties[j];
                    if p.result && p.api_getter && !holds_type(&types, p.type_s.as_str()) {
                        let ghost before = pairs_view(types@);
                        types.push((p.type_s.clone(), p.create_ref_type()));
                        assert(pairs_view(types@) =~= before.push((p@.type_s, ref_type_spec(p@))));
                    }
                    j = j + 1;
                }
                assert(ps.take(s.properties.len() as int) =~= ps);
                let ghost acc2 = pairs_view(types@);
                let ghost es = s@.extra_property_list;
                let mut j: usize = 0;
                assert(es.take(0) =~= Seq::<(Seq<char>, Seq<char>, Seq<char>)>::empty());
                while j < s.extra_property_list.len()
                    invariant
                        es == triples_view(s.extra_property_list@),
                        j <= s.extra_property_list.len(),
                        pairs_view(types@) == add_extra_types(acc2, es.take(j as int)),
                    decreases s.extra_property_list.len() - j,
                {
                    assert(es.take(j + 1).drop_last() =~= es.take(j as int));
                    let (t, r, _) = &s.extra_property_list[j];
                    if !holds_type(&types, t.as_str()) {
                        let ghost before = pairs_view(types@);
                        types.push((r.clone(), t.clone()));
                        assert(pairs_view(types@) =~= before.push((es[j as int].1, es[j as int].0)));
                    }
                    j = j + 1;
                }
                assert(es.take(s.extra_property_list.len() as int) =~= es);
            }
            i = i + 1;
        }
        assert(structs.take(all_structs.len() as int) =~= structs);
        types
    }
}

} // verus!
