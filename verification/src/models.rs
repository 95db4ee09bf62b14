//! The values that requests and responses carry.

use crate::text::{decimal_text, optional_text};
use vstd::prelude::*;
use vstd::std_specs::convert::FromSpecImpl;
use vstd::string::*;

verus! {

/// Baudrate to use for the communication: one of 300, 600, 1200, 2400, 4800
/// and 9600. No other rate can be written down.
#[allow(non_camel_case_types)]
#[derive(Debug, Clone, Copy, PartialEq, Eq, PartialOrd, Ord, Hash, Structural)]
pub enum Baudrate {
    _300,
    _600,
    _1200,
    _2400,
    _4800,
    _9600,
}

impl Baudrate {
    /// The rate in bits per second.
    pub open spec fn rate(self) -> nat {
        match self {
            Baudrate::_300 => 300,
            Baudrate::_600 => 600,
            Baudrate::_1200 => 1200,
            Baudrate::_2400 => 2400,
            Baudrate::_4800 => 4800,
            Baudrate::_9600 => 9600,
        }
    }

    /// The text of the rate, as it stands in a request and on a command line.
    pub open spec fn text(self) -> Seq<char> {
        match self {
            Baudrate::_300 => seq!['3', '0', '0'],
            Baudrate::_600 => seq!['6', '0', '0'],
            Baudrate::_1200 => seq!['1', '2', '0', '0'],
            Baudrate::_2400 => seq!['2', '4', '0', '0'],
            Baudrate::_4800 => seq!['4', '8', '0', '0'],
            Baudrate::_9600 => seq!['9', '6', '0', '0'],
        }
    }

    /// The rate that `s` names, if it names one.
    pub open spec fn parse(s: Seq<char>) -> Option<Baudrate> {
        if s == Baudrate::_300.text() {
            Some(Baudrate::_300)
        } else if s == Baudrate::_600.text() {
            Some(Baudrate::_600)
        } else if s == Baudrate::_1200.text() {
            Some(Baudrate::_1200)
        } else if s == Baudrate::_2400.text() {
            Some(Baudrate::_2400)
        } else if s == Baudrate::_4800.text() {
            Some(Baudrate::_4800)
        } else if s == Baudrate::_9600.text() {
            Some(Baudrate::_9600)
        } else {
            None
        }
    }

    /// The rate in bits per second.
    pub fn value(&self) -> (r: u32)
        ensures
            r == self.rate(),
    {
        match self {
            Baudrate::_300 => 300,
            Baudrate::_600 => 600,
            Baudrate::_1200 => 1200,
            Baudrate::_2400 => 2400,
            Baudrate::_4800 => 4800,
            Baudrate::_9600 => 9600,
        }
    }

    /// The rate as text.
    pub fn as_str(&self) -> (s: &'static str)
        ensures
            s@ == self.text(),
    {
        proof {
            reveal_strlit("300");
            reveal_strlit("600");
            reveal_strlit("1200");
            reveal_strlit("2400");
            reveal_strlit("4800");
            reveal_strlit("9600");
        }
        let s = match self {
            Baudrate::_300 => "300",
            Baudrate::_600 => "600",
            Baudrate::_1200 => "1200",
            Baudrate::_2400 => "2400",
            Baudrate::_4800 => "4800",
            Baudrate::_9600 => "9600",
        };
        assert(s@ =~= self.text());
        s
    }

    /// The rate as an owned text.
    pub fn to_string(&self) -> (s: String)
        ensures
            s@ == self.text(),
    {
        self.as_str().to_owned()
    }

    /// Reads a rate from its text. Anything but the six rates is rejected.
    pub fn from_str(s: &str) -> (r: Result<Baudrate, ()>)
        ensures
            r is Ok <==> Baudrate::parse(s@) is Some,
            r matches Ok(b) ==> Baudrate::parse(s@) == Some(b) && b.text() == s@,
    {
        let text = s.to_owned();
        if text == Baudrate::_300.to_string() {
            Ok(Baudrate::_300)
        } else if text == Baudrate::_600.to_string() {
            Ok(Baudrate::_600)
        } else if text == Baudrate::_1200.to_string() {
            Ok(Baudrate::_1200)
        } else if text == Baudrate::_2400.to_string() {
            Ok(Baudrate::_2400)
        } else if text == Baudrate::_4800.to_string() {
            Ok(Baudrate::_4800)
        } else if text == Baudrate::_9600.to_string() {
            Ok(Baudrate::_9600)
        } else {
            Err(())
        }
    }
}

impl std::str::FromStr for Baudrate {
    type Err = ();

    /// Reads a rate from its text, as `Baudrate::from_str` does.
    fn from_str(s: &str) -> (r: Result<Baudrate, ()>)
        ensures
            r is Ok <==> Baudrate::parse(s@) is Some,
            r matches Ok(b) ==> Baudrate::parse(s@) == Some(b) && b.text() == s@,
    {
        Baudrate::from_str(s)
    }
}

/// Slave address
#[derive(Debug, Clone, PartialEq, PartialOrd)]
pub struct Address(i32);

impl View for Address {
    type V = i32;

    closed spec fn view(&self) -> i32 {
        self.0
    }
}

impl Address {
    /// The address that holds `x`.
    pub closed spec fn of(x: i32) -> Address {
        Address(x)
    }
}

impl From<i32> for Address {
    fn from(x: i32) -> (a: Address)
        ensures
            a@ == x,
    {
        Address(x)
    }
}

impl FromSpecImpl<i32> for Address {
    open spec fn obeys_from_spec() -> bool {
        true
    }

    open spec fn from_spec(x: i32) -> Address {
        Address::of(x)
    }
}

impl From<Address> for i32 {
    fn from(a: Address) -> (x: i32)
        ensures
            x == a@,
    {
        a.0
    }
}

impl FromSpecImpl<Address> for i32 {
    open spec fn obeys_from_spec() -> bool {
        true
    }

    open spec fn from_spec(a: Address) -> i32 {
        a@
    }
}

impl std::ops::Deref for Address {
    type Target = i32;

    fn deref(&self) -> (x: &i32)
        ensures
            *x == self@,
    {
        &self.0
    }
}

impl std::ops::DerefMut for Address {
    fn deref_mut(&mut self) -> (x: &mut i32)
        ensures
            *x == old(self)@,
            final(self)@ == *final(x),
    {
        &mut self.0
    }
}

/// The device the M-Bus is connected to; the gateway looks it up below `/dev/`.
#[derive(Debug, Clone, PartialEq, PartialOrd)]
pub struct Device(String);

impl View for Device {
    type V = Seq<char>;

    closed spec fn view(&self) -> Seq<char> {
        self.0@
    }
}

impl Device {
    /// The device that holds the text `x`.
    pub closed spec fn of(x: String) -> Device {
        Device(x)
    }

    /// The text that is held.
    pub closed spec fn text(self) -> String {
        self.0
    }
}

impl From<String> for Device {
    fn from(x: String) -> (v: Device)
        ensures
            v@ == x@,
    {
        Device(x)
    }
}

impl FromSpecImpl<String> for Device {
    open spec fn obeys_from_spec() -> bool {
        true
    }

    open spec fn from_spec(x: String) -> Device {
        Device::of(x)
    }
}

impl From<Device> for String {
    fn from(v: Device) -> (x: String)
        ensures
            x@ == v@,
    {
        v.0
    }
}

impl FromSpecImpl<Device> for String {
    open spec fn obeys_from_spec() -> bool {
        true
    }

    open spec fn from_spec(v: Device) -> String {
        v.text()
    }
}

impl std::ops::Deref for Device {
    type Target = String;

    fn deref(&self) -> (x: &String)
        ensures
            x@ == self@,
    {
        &self.0
    }
}

impl std::ops::DerefMut for Device {
    fn deref_mut(&mut self) -> (x: &mut String)
        ensures
            x@ == old(self)@,
            final(self)@ == final(x)@,
    {
        &mut self.0
    }
}

/// M-Bus device data as an XML document
#[derive(Debug, Clone, PartialEq, PartialOrd)]
pub struct MbusData(String);

impl View for MbusData {
    type V = Seq<char>;

    closed spec fn view(&self) -> Seq<char> {
        self.0@
    }
}

impl MbusData {
    /// The document that holds the text `x`.
    pub closed spec fn of(x: String) -> MbusData {
        MbusData(x)
    }

    /// The text that is held.
    pub closed spec fn text(self) -> String {
        self.0
    }
}

impl From<String> for MbusData {
    fn from(x: String) -> (v: MbusData)
        ensures
            v@ == x@,
    {
        MbusData(x)
    }
}

impl FromSpecImpl<String> for MbusData {
    open spec fn obeys_from_spec() -> bool {
        true
    }

    open spec fn from_spec(x: String) -> MbusData {
        MbusData::of(x)
    }
}

impl From<MbusData> for String {
    fn from(v: MbusData) -> (x: String)
        ensures
            x@ == v@,
    {
        v.0
    }
}

impl FromSpecImpl<MbusData> for String {
    open spec fn obeys_from_spec() -> bool {
        true
    }

    open spec fn from_spec(v: MbusData) -> String {
        v.text()
    }
}

impl std::ops::Deref for MbusData {
    type Target = String;

    fn deref(&self) -> (x: &String)
        ensures
            x@ == self@,
    {
        &self.0
    }
}

impl std::ops::DerefMut for MbusData {
    fn deref_mut(&mut self) -> (x: &mut String)
        ensures
            x@ == old(self)@,
            final(self)@ == final(x)@,
    {
        &mut self.0
    }
}

/// An XML list of slaves
#[derive(Debug, Clone, PartialEq, PartialOrd)]
pub struct Slaves(String);

impl View for Slaves {
    type V = Seq<char>;

    closed spec fn view(&self) -> Seq<char> {
        self.0@
    }
}

impl Slaves {
    /// The list that holds the text `x`.
    pub closed spec fn of(x: String) -> Slaves {
        Slaves(x)
    }

    /// The text that is held.
    pub closed spec fn text(self) -> String {
        self.0
    }
}

impl From<String> for Slaves {
    fn from(x: String) -> (v: Slaves)
        ensures
            v@ == x@,
    {
        Slaves(x)
    }
}

impl FromSpecImpl<String> for Slaves {
    open spec fn obeys_from_spec() -> bool {
        true
    }

    open spec fn from_spec(x: String) -> Slaves {
        Slaves::of(x)
    }
}

impl From<Slaves> for String {
    fn from(v: Slaves) -> (x: String)
        ensures
            x@ == v@,
    {
        v.0
    }
}

impl FromSpecImpl<Slaves> for String {
    open spec fn obeys_from_spec() -> bool {
        true
    }

    open spec fn from_spec(v: Slaves) -> String {
        v.text()
    }
}

impl std::ops::Deref for Slaves {
    type Target = String;

    fn deref(&self) -> (x: &String)
        ensures
            x@ == self@,
    {
        &self.0
    }
}

impl std::ops::DerefMut for Slaves {
    fn deref_mut(&mut self) -> (x: &mut String)
        ensures
            x@ == old(self)@,
            final(self)@ == final(x)@,
    {
        &mut self.0
    }
}

/// Some error text
#[derive(Debug, Clone, PartialEq, PartialOrd)]
pub struct TextError(String);

impl View for TextError {
    type V = Seq<char>;

    closed spec fn view(&self) -> Seq<char> {
        self.0@
    }
}

impl TextError {
    /// The error that holds the text `x`.
    pub closed spec fn of(x: String) -> TextError {
        TextError(x)
    }

    /// The text that is held.
    pub closed spec fn text(self) -> String {
        self.0
    }
}

impl From<String> for TextError {
    fn from(x: String) -> (v: TextError)
        ensures
            v@ == x@,
    {
        TextError(x)
    }
}

impl FromSpecImpl<String> for TextError {
    open spec fn obeys_from_spec() -> bool {
        true
    }

    open spec fn from_spec(x: String) -> TextError {
        TextError::of(x)
    }
}

impl From<TextError> for String {
    fn from(v: TextError) -> (x: String)
        ensures
            x@ == v@,
    {
        v.0
    }
}

impl FromSpecImpl<TextError> for String {
    open spec fn obeys_from_spec() -> bool {
        true
    }

    open spec fn from_spec(v: TextError) -> String {
        v.text()
    }
}

impl std::ops::Deref for TextError {
    type Target = String;

    fn deref(&self) -> (x: &String)
        ensures
            x@ == self@,
    {
        &self.0
    }
}

impl std::ops::DerefMut for TextError {
    fn deref_mut(&mut self) -> (x: &mut String)
        ensures
            x@ == old(self)@,
            final(self)@ == final(x)@,
    {
        &mut self.0
    }
}

/// A YAML file
#[derive(Debug, Clone, PartialEq, PartialOrd)]
pub struct Yaml(String);

impl View for Yaml {
    type V = Seq<char>;

    closed spec fn view(&self) -> Seq<char> {
        self.0@
    }
}

impl Yaml {
    /// The file that holds the text `x`.
    pub closed spec fn of(x: String) -> Yaml {
        Yaml(x)
    }

    /// The text that is held.
    pub closed spec fn text(self) -> String {
        self.0
    }
}

impl From<String> for Yaml {
    fn from(x: String) -> (v: Yaml)
        ensures
            v@ == x@,
    {
        Yaml(x)
    }
}

impl FromSpecImpl<String> for Yaml {
    open spec fn obeys_from_spec() -> bool {
        true
    }

    open spec fn from_spec(x: String) -> Yaml {
        Yaml::of(x)
    }
}

impl From<Yaml> for String {
    fn from(v: Yaml) -> (x: String)
        ensures
            x@ == v@,
    {
        v.0
    }
}

impl FromSpecImpl<Yaml> for String {
    open spec fn obeys_from_spec() -> bool {
        true
    }

    open spec fn from_spec(v: Yaml) -> String {
        v.text()
    }
}

impl std::ops::Deref for Yaml {
    type Target = String;

    fn deref(&self) -> (x: &String)
        ensures
            x@ == self@,
    {
        &self.0
    }
}

impl std::ops::DerefMut for Yaml {
    fn deref_mut(&mut self) -> (x: &mut String)
        ensures
            x@ == old(self)@,
            final(self)@ == final(x)@,
    {
        &mut self.0
    }
}

/// Identity of the add-on module that powers the bus. Each field is absent
/// where the module does not state it or it could not be read.
#[derive(Debug, Clone, PartialEq)]
pub struct Hat {
    /// Product
    pub product: Option<String>,
    /// Product ID
    pub product_id: Option<String>,
    /// Product Version
    pub product_ver: Option<String>,
    /// Hat UUID
    pub uuid: Option<String>,
    /// Hat Vendor
    pub vendor: Option<String>,
}

/// What the contracts see of a `Hat`.
pub struct HatView {
    pub product: Option<Seq<char>>,
    pub product_id: Option<Seq<char>>,
    pub product_ver: Option<Seq<char>>,
    pub uuid: Option<Seq<char>>,
    pub vendor: Option<Seq<char>>,
}

impl View for Hat {
    type V = HatView;

    open spec fn view(&self) -> HatView {
        HatView {
            product: optional_text(self.product),
            product_id: optional_text(self.product_id),
            product_ver: optional_text(self.product_ver),
            uuid: optional_text(self.uuid),
            vendor: optional_text(self.vendor),
        }
    }
}

impl Hat {
    /// An identity with no field stated.
    pub fn new() -> (h: Hat)
        ensures
            h@ == (HatView {
                product: None,
                product_id: None,
                product_ver: None,
                uuid: None,
                vendor: None,
            }),
    {
        Hat { product: None, product_id: None, product_ver: None, uuid: None, vendor: None }
    }
}

/// Reading the text of a rate gives the rate back, and a text is read as a
/// rate only if it is that rate's text.
pub proof fn lemma_baudrate_round_trip(b: Baudrate, s: Seq<char>)
    ensures
        Baudrate::parse(b.text()) == Some(b),
        Baudrate::parse(s) == Some(b) <==> s == b.text(),
{
    assert(Baudrate::_300.text()[0] == '3');
    assert(Baudrate::_600.text()[0] == '6');
    assert(Baudrate::_1200.text()[0] == '1');
    assert(Baudrate::_2400.text()[0] == '2');
    assert(Baudrate::_4800.text()[0] == '4');
    assert(Baudrate::_9600.text()[0] == '9');
}

/// The text of a rate is the decimal text of its number.
pub proof fn lemma_baudrate_text_is_decimal(b: Baudrate)
    ensures
        b.text() == decimal_text(b.rate() as int),
{
    reveal_with_fuel(crate::text::decimal_digits, 5);
    assert(b.text() =~= decimal_text(b.rate() as int));
}

} // verus!
