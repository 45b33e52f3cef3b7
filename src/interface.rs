//! Interface descriptors: a named, ordered list of exported methods and signals.

use vstd::prelude::*;

verus! {

/// One exported member of an interface.
///
/// A method holds its name, its argument type signature, the names of its
/// arguments in order, and its return type signature; a signal holds its name
/// and its type signature. Signature strings are not checked here.
#[derive(Clone, Debug)]
pub enum DBusInterfaceElement {
    Method(String, String, Vec<String>, String),
    Signal(String, String),
}

/// The mathematical value of an interface member.
pub ghost enum ElementModel {
    Method(Seq<char>, Seq<char>, Seq<Seq<char>>, Seq<char>),
    Signal(Seq<char>, Seq<char>),
}

/// The text of each string in a list, in order.
pub open spec fn strings_view(v: Seq<String>) -> Seq<Seq<char>> {
    v.map_values(|s: String| s@)
}

impl View for DBusInterfaceElement {
    type V = ElementModel;

    open spec fn view(&self) -> ElementModel {
        match self {
            DBusInterfaceElement::Method(name, argspec, argnames, retspec) => ElementModel::Method(
                name@,
                argspec@,
                strings_view(argnames@),
                retspec@,
            ),
            DBusInterfaceElement::Signal(name, retspec) => ElementModel::Signal(name@, retspec@),
        }
    }
}

/// The value of a list of members, in order.
pub open spec fn elements_view(v: Seq<DBusInterfaceElement>) -> Seq<ElementModel> {
    v.map_values(|e: DBusInterfaceElement| e@)
}

/// The mathematical value of an interface descriptor.
pub ghost struct InterfaceModel {
    pub name: Seq<char>,
    pub members: Seq<ElementModel>,
}

/// A named interface and its members in the order they were added. Names
/// are not required to be unique.
pub struct DBusInterface {
    name: String,
    members: Vec<DBusInterfaceElement>,
}

impl View for DBusInterface {
    type V = InterfaceModel;

    closed spec fn view(&self) -> InterfaceModel {
        InterfaceModel { name: self.name@, members: elements_view(self.members@) }
    }
}

impl DBusInterface {
    /// An interface called `name` with no members.
    pub fn new(name: &str) -> (r: DBusInterface)
        ensures
            r@.name == name@,
            r@.members == Seq::<ElementModel>::empty(),
    {
        let r = DBusInterface { name: name.to_owned(), members: Vec::new() };
        proof {
            assert(elements_view(r.members@) =~= Seq::<ElementModel>::empty());
        }
        r
    }

    /// Appends `elem` after the members already there.
    pub fn add_member(&mut self, elem: DBusInterfaceElement)
        ensures
            final(self)@.name == old(self)@.name,
            final(self)@.members == old(self)@.members.push(elem@),
    {
        let ghost e = elem@;
        self.members.push(elem);
        proof {
            assert(elements_view(self.members@) =~= old(self)@.members.push(e));
        }
    }

    /// Appends a method with the given name, argument signature, argument
    /// names and return signature.
    pub fn add_method(&mut self, name: &str, argspec: &str, argnames: Vec<String>, retspec: &str)
        ensures
            final(self)@.name == old(self)@.name,
            final(self)@.members == old(self)@.members.push(
                ElementModel::Method(name@, argspec@, strings_view(argnames@), retspec@),
            ),
    {
        self.add_member(
            DBusInterfaceElement::Method(
                name.to_owned(),
                argspec.to_owned(),
                argnames,
                retspec.to_owned(),
            ),
        );
    }

    /// Appends a signal with the given name and signature.
    pub fn add_signal(&mut self, name: &str, retspec: &str)
        ensures
            final(self)@.name == old(self)@.name,
            final(self)@.members == old(self)@.members.push(
                ElementModel::Signal(name@, retspec@),
            ),
    {
        self.add_member(DBusInterfaceElement::Signal(name.to_owned(), retspec.to_owned()));
    }

    /// The interface's name.
    pub fn name(&self) -> (r: &str)
        ensures
            r@ == self@.name,
    {
        self.name.as_str()
    }

    /// The members, in the order they were added.
    pub fn members(&self) -> (r: &Vec<DBusInterfaceElement>)
        ensures
            elements_view(r@) == self@.members,
    {
        &self.members
    }
}

} // verus!
