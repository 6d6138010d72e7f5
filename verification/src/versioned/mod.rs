//! Values with a current and an old serialized representation.

pub mod compact;
pub mod result;

use vstd::prelude::*;

verus! {

/// What is known of the remote endpoint of a connection.
#[derive(Clone, Copy, Debug, PartialEq, Eq, Structural)]
pub struct RemoteCfg {
    /// Whether it understands compact representations.
    pub compact_transported: bool,
}

/// Decides between the current and the old representation.
pub trait Versioner {
    /// Returns whether the old representation is used.
    ///
    /// No configuration is present outside of a connection.
    fn use_old(remote: Option<RemoteCfg>) -> Result<bool, String>;
}

/// Decides by the capabilities of the remote endpoint of the current connection.
///
/// Without a connection the current representation is used.
pub struct RemocCompact;

impl Versioner for RemocCompact {
    fn use_old(remote: Option<RemoteCfg>) -> (r: Result<bool, String>)
        ensures
            r == Ok::<bool, String>(
                remote matches Some(cfg) && !cfg.compact_transported,
            ),
    {
        match remote {
            Some(cfg) => Ok(!cfg.compact_transported),
            None => Ok(false),
        }
    }
}

/// A type with a current and an old serializable representation.
pub trait Versioned: Sized {
    /// Decides which representation is used.
    type Versioner: Versioner;

    /// Current representation for serialization.
    type CurrentRef<'a> where Self: 'a;

    /// Returns the current representation for serialization.
    fn as_current<'a>(&'a self) -> Result<Self::CurrentRef<'a>, String>;

    /// Current representation for deserialization.
    type Current;

    /// Returns the value of a current representation.
    fn from_current(current: Self::Current) -> Result<Self, String>;

    /// Old representation for serialization.
    type OldRef<'a> where Self: 'a;

    /// Returns the old representation for serialization.
    fn as_old<'a>(&'a self) -> Result<Self::OldRef<'a>, String>;

    /// Old representation for deserialization.
    type Old;

    /// Returns the value of an old representation.
    fn from_old(old: Self::Old) -> Result<Self, String>;
}

/// One of the two representations of a value.
pub enum Representation<C, O> {
    /// The current one.
    Current(C),
    /// The old one.
    Old(O),
}

/// Returns the representation in which a value is to be serialized.
pub fn serialize<'a, T: Versioned>(value: &'a T, remote: Option<RemoteCfg>) -> (r: Result<
    Representation<T::CurrentRef<'a>, T::OldRef<'a>>,
    String,
>)
    ensures
        match r {
            Ok(Representation::Current(repr)) => {
                &&& call_ensures(T::Versioner::use_old, (remote,), Ok(false))
                &&& call_ensures(T::as_current, (value,), Ok(repr))
            },
            Ok(Representation::Old(repr)) => {
                &&& call_ensures(T::Versioner::use_old, (remote,), Ok(true))
                &&& call_ensures(T::as_old, (value,), Ok(repr))
            },
            Err(err) => {
                ||| call_ensures(T::Versioner::use_old, (remote,), Err(err))
                ||| call_ensures(T::Versioner::use_old, (remote,), Ok(false)) && call_ensures(
                    T::as_current,
                    (value,),
                    Err(err),
                )
                ||| call_ensures(T::Versioner::use_old, (remote,), Ok(true)) && call_ensures(
                    T::as_old,
                    (value,),
                    Err(err),
                )
            },
        },
{
    let old: bool = match T::Versioner::use_old(remote) {
        Ok(old) => old,
        Err(err) => {
            return Err(err);
        },
    };
    if !old {
        match value.as_current() {
            Ok(repr) => Ok(Representation::Current(repr)),
            Err(err) => Err(err),
        }
    } else {
        match value.as_old() {
            Ok(repr) => Ok(Representation::Old(repr)),
            Err(err) => Err(err),
        }
    }
}

/// Reads the representation that is expected and returns its value.
///
/// Only the reader of that representation is used.
pub fn deserialize<
    T: Versioned,
    C: FnOnce() -> Result<T::Current, String>,
    O: FnOnce() -> Result<T::Old, String>,
>(remote: Option<RemoteCfg>, read_current: C, read_old: O) -> (r: Result<T, String>)
    requires
        read_current.requires(()),
        read_old.requires(()),
    ensures
        ({
            ||| r matches Err(err) && call_ensures(T::Versioner::use_old, (remote,), Err(err))
            ||| call_ensures(T::Versioner::use_old, (remote,), Ok(false)) && {
                ||| r matches Err(err) && read_current.ensures((), Err(err))
                ||| exists|repr: T::Current| #[trigger]
                    read_current.ensures((), Ok(repr)) && call_ensures(T::from_current, (repr,), r)
            }
            ||| call_ensures(T::Versioner::use_old, (remote,), Ok(true)) && {
                ||| r matches Err(err) && read_old.ensures((), Err(err))
                ||| exists|repr: T::Old| #[trigger]
                    read_old.ensures((), Ok(repr)) && call_ensures(T::from_old, (repr,), r)
            }
        }),
{
    let old: bool = match T::Versioner::use_old(remote) {
        Ok(old) => old,
        Err(err) => {
            return Err(err);
        },
    };
    if !old {
        match read_current() {
            Ok(repr) => T::from_current(repr),
            Err(err) => Err(err),
        }
    } else {
        match read_old() {
            Ok(repr) => T::from_old(repr),
            Err(err) => Err(err),
        }
    }
}

/// A result comes back unchanged from its transported representation.
pub proof fn law_result_round_trip<T, E>(res: Result<T, E>)
    ensures
        ({
            let transported = <result::Result<T, E> as vstd::std_specs::convert::FromSpec<
                Result<T, E>,
            >>::from_spec(res);
            <Result<T, E> as vstd::std_specs::convert::FromSpec<
                result::Result<T, E>,
            >>::from_spec(transported) == res
        }),
{
}

/// The old representation is used exactly towards an endpoint that does not understand the
/// compact one.
pub proof fn law_choice_of_representation(
    remote: Option<RemoteCfg>,
    old: Result<bool, String>,
    compact: Result<bool, String>,
)
    requires
        call_ensures(<RemocCompact as Versioner>::use_old, (remote,), old),
        call_ensures(<compact::CompactVersioner as Versioner>::use_old, (remote,), compact),
    ensures
        old is Ok && compact is Ok,
        old->Ok_0 == compact->Ok_0,
        remote is None ==> !old->Ok_0,
        remote matches Some(cfg) ==> old->Ok_0 != cfg.compact_transported,
{
}

/// A value whose representation is chosen by what the endpoint understands is sent to it in a
/// representation that it understands, made of that value.
pub proof fn law_representation_is_understood<'a, T: Versioned<Versioner = RemocCompact>>(
    value: &'a T,
    remote: Option<RemoteCfg>,
    r: Result<Representation<T::CurrentRef<'a>, T::OldRef<'a>>, String>,
)
    requires
        call_ensures(serialize::<T>, (value, remote), r),
    ensures
        remote is None ==> !(r matches Ok(Representation::Old(_))),
        remote matches Some(cfg) && cfg.compact_transported ==> !(r matches Ok(
            Representation::Old(_),
        )),
        remote matches Some(cfg) && !cfg.compact_transported ==> !(r matches Ok(
            Representation::Current(_),
        )),
        r matches Ok(Representation::Current(repr)) ==> call_ensures(
            T::as_current,
            (value,),
            Ok(repr),
        ),
        r matches Ok(Representation::Old(repr)) ==> call_ensures(T::as_old, (value,), Ok(repr)),
{
}

/// A value is read in the representation that the sending endpoint uses towards this one; that
/// reading it failed is reported.
pub proof fn law_representation_is_read<
    T: Versioned<Versioner = RemocCompact>,
    C: FnOnce() -> Result<T::Current, String>,
    O: FnOnce() -> Result<T::Old, String>,
>(remote: Option<RemoteCfg>, read_current: C, read_old: O, r: Result<T, String>)
    requires
        call_ensures(deserialize::<T, C, O>, (remote, read_current, read_old), r),
    ensures
        remote matches Some(cfg) && !cfg.compact_transported ==> {
            ||| r matches Err(err) && read_old.ensures((), Err(err))
            ||| exists|repr: T::Old| #[trigger]
                read_old.ensures((), Ok(repr)) && call_ensures(T::from_old, (repr,), r)
        },
        !(remote matches Some(cfg) && !cfg.compact_transported) ==> {
            ||| r matches Err(err) && read_current.ensures((), Err(err))
            ||| exists|repr: T::Current| #[trigger]
                read_current.ensures((), Ok(repr)) && call_ensures(T::from_current, (repr,), r)
        },
{
}

/// A result keeps its value or its error in its transported representation and comes back
/// unchanged.
pub proof fn law_result_is_transported<T, E>(
    res: Result<T, E>,
    transported: result::Result<T, E>,
    back: Result<T, E>,
)
    requires
        call_ensures(<result::Result<T, E> as From<Result<T, E>>>::from, (res,), transported),
        call_ensures(
            <Result<T, E> as From<result::Result<T, E>>>::from,
            (transported,),
            back,
        ),
    ensures
        back == res,
        res matches Ok(value) ==> transported == result::Result::<T, E>::Success(value),
        res matches Err(err) ==> transported == result::Result::<T, E>::Failure(err),
{
}

} // verus!
