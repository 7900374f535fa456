//! Value objects of a location: address, location type and coordinates, and
//! the domain error raised when one of them is invalid.
use vstd::prelude::*;

verus! {

/// A domain rule was violated.
#[derive(Clone, Copy, Debug, PartialEq, Eq, Structural)]
pub enum DomainError {
    /// A value or a change failed validation.
    ValidationError(ValidationRule),
    /// The event belongs to another aggregate than the one it is applied to.
    AggregateMismatch { expected: u128, found: u128 },
    /// A defining event arrived for an aggregate that already exists.
    AlreadyDefined,
}

/// The validation rules of the location domain.
#[derive(Clone, Copy, Debug, PartialEq, Eq, Hash, Structural)]
pub enum ValidationRule {
    StreetAddressEmpty,
    LocalityEmpty,
    RegionEmpty,
    CountryEmpty,
    PostalCodeEmpty,
    LatitudeOutOfRange,
    LongitudeOutOfRange,
    InvalidUrl,
    AddressOnVirtualLocation,
    CoordinatesOnVirtualLocation,
    OwnParent,
    UpdateArchived,
    ModifyArchived,
    AlreadyArchived,
}

impl ValidationRule {
    /// The human-readable message of the rule.
    pub fn message(&self) -> (r: &'static str) {
        match self {
            ValidationRule::StreetAddressEmpty => "Street address cannot be empty",
            ValidationRule::LocalityEmpty => "Locality cannot be empty",
            ValidationRule::RegionEmpty => "Region cannot be empty",
            ValidationRule::CountryEmpty => "Country cannot be empty",
            ValidationRule::PostalCodeEmpty => "Postal code cannot be empty",
            ValidationRule::LatitudeOutOfRange => "Latitude is out of range [-90, 90]",
            ValidationRule::LongitudeOutOfRange => "Longitude is out of range [-180, 180]",
            ValidationRule::InvalidUrl => "Invalid URL",
            ValidationRule::AddressOnVirtualLocation => "Cannot set physical address on virtual location",
            ValidationRule::CoordinatesOnVirtualLocation => "Cannot set coordinates on virtual location",
            ValidationRule::OwnParent => "Location cannot be its own parent",
            ValidationRule::UpdateArchived => "Cannot update archived location",
            ValidationRule::ModifyArchived => "Cannot modify archived location",
            ValidationRule::AlreadyArchived => "Location is already archived",
        }
    }
}

/// Characters of the Unicode `White_Space` property.
pub open spec fn is_white_space(c: char) -> bool {
    let u = c as u32;
    (0x9 <= u && u <= 0xd) || u == 0x20 || u == 0x85 || u == 0xa0 || u == 0x1680 || (0x2000 <= u
        && u <= 0x200a) || u == 0x2028 || u == 0x2029 || u == 0x202f || u == 0x205f || u == 0x3000
}

/// Nothing but white space: what is left after trimming is empty.
pub open spec fn is_blank(s: Seq<char>) -> bool {
    forall|i: int| 0 <= i < s.len() ==> is_white_space(#[trigger] s[i])
}

/// Whether `c` is white space.
pub fn char_is_white_space(c: char) -> (r: bool)
    ensures
        r == is_white_space(c),
{
    let u = c as u32;
    (0x9 <= u && u <= 0xd) || u == 0x20 || u == 0x85 || u == 0xa0 || u == 0x1680 || (0x2000 <= u
        && u <= 0x200a) || u == 0x2028 || u == 0x2029 || u == 0x202f || u == 0x205f || u == 0x3000
}

/// Whether `s` holds nothing but white space.
pub fn str_is_blank(s: &str) -> (r: bool)
    ensures
        r == is_blank(s@),
{
    let n = s.unicode_len();
    let mut i: usize = 0;
    while i < n
        invariant
            n == s@.len(),
            i <= n,
            forall|j: int| 0 <= j < i ==> is_white_space(#[trigger] s@[j]),
        decreases n - i,
    {
        if !char_is_white_space(s.get_char(i)) {
            return false;
        }
        i = i + 1;
    }
    true
}

/// Physical address.
#[derive(Clone, Debug, PartialEq, Eq)]
pub struct Address {
    /// Street address (line 1).
    pub street1: String,
    /// Street address (line 2).
    pub street2: Option<String>,
    /// City or locality.
    pub locality: String,
    /// State, province or region.
    pub region: String,
    pub country: String,
    pub postal_code: String,
}

impl Address {
    /// The rule broken by the first blank required field, if any.
    pub open spec fn first_blank_field(self) -> Option<ValidationRule> {
        if is_blank(self.street1@) {
            Some(ValidationRule::StreetAddressEmpty)
        } else if is_blank(self.locality@) {
            Some(ValidationRule::LocalityEmpty)
        } else if is_blank(self.region@) {
            Some(ValidationRule::RegionEmpty)
        } else if is_blank(self.country@) {
            Some(ValidationRule::CountryEmpty)
        } else if is_blank(self.postal_code@) {
            Some(ValidationRule::PostalCodeEmpty)
        } else {
            None
        }
    }

    pub open spec fn is_valid(self) -> bool {
        self.first_blank_field() is None
    }

    /// What [`Address::validate`] returns.
    pub open spec fn validate_result(self) -> Result<(), DomainError> {
        match self.first_blank_field() {
            Some(rule) => Err(DomainError::ValidationError(rule)),
            None => Ok(()),
        }
    }

    pub fn new(
        street1: String,
        locality: String,
        region: String,
        country: String,
        postal_code: String,
    ) -> (r: Address)
        ensures
            r == (Address { street1, street2: None, locality, region, country, postal_code }),
    {
        Address { street1, street2: None, locality, region, country, postal_code }
    }

    /// Adds a second street line.
    pub fn with_street2(self, street2: String) -> (r: Address)
        ensures
            r == (Address { street2: Some(street2), ..self }),
    {
        Address { street2: Some(street2), ..self }
    }

    /// Fails on the first of street, locality, region, country and postal
    /// code that is blank.
    pub fn validate(&self) -> (r: Result<(), DomainError>)
        ensures
            r == self.validate_result(),
    {
        if str_is_blank(self.street1.as_str()) {
            return Err(DomainError::ValidationError(ValidationRule::StreetAddressEmpty));
        }
        if str_is_blank(self.locality.as_str()) {
            return Err(DomainError::ValidationError(ValidationRule::LocalityEmpty));
        }
        if str_is_blank(self.region.as_str()) {
            return Err(DomainError::ValidationError(ValidationRule::RegionEmpty));
        }
        if str_is_blank(self.country.as_str()) {
            return Err(DomainError::ValidationError(ValidationRule::CountryEmpty));
        }
        if str_is_blank(self.postal_code.as_str()) {
            return Err(DomainError::ValidationError(ValidationRule::PostalCodeEmpty));
        }
        Ok(())
    }

    /// `locality, region postal_code`.
    pub open spec fn city_line(self) -> Seq<char> {
        self.locality@ + ", "@ + self.region@ + " "@ + self.postal_code@
    }

    /// The address lines: street, optional second street, city line, country.
    pub open spec fn lines(self) -> Seq<Seq<char>> {
        match self.street2 {
            Some(s2) => seq![self.street1@, s2@, self.city_line(), self.country@],
            None => seq![self.street1@, self.city_line(), self.country@],
        }
    }

    fn city_line_text(&self) -> (r: String)
        ensures
            r@ == self.city_line(),
    {
        self.locality.clone().concat(", ").concat(self.region.as_str()).concat(" ").concat(
            self.postal_code.as_str(),
        )
    }

    /// The lines joined by `sep`.
    fn joined(&self, sep: &str) -> (r: String)
        ensures
            r@ == join_lines(self.lines(), sep@),
    {
        let mut out = self.street1.clone();
        match &self.street2 {
            Some(s2) => {
                out = out.concat(sep).concat(s2.as_str());
            },
            None => {},
        }
        let ghost mid = out@;
        let city = self.city_line_text();
        let out = out.concat(sep).concat(city.as_str()).concat(sep).concat(self.country.as_str());
        proof {
            let l = self.lines();
            let first = seq![self.street1@];
            assert(join_lines(first, sep@) == self.street1@);
            if self.street2 is Some {
                let s2 = self.street2->Some_0;
                let two = seq![self.street1@, s2@];
                let three = seq![self.street1@, s2@, self.city_line()];
                assert(two.drop_last() =~= first);
                assert(join_lines(two, sep@) == self.street1@ + sep@ + s2@);
                assert(three.drop_last() =~= two);
                assert(l.drop_last() =~= three);
                assert(join_lines(three, sep@) == join_lines(two, sep@) + sep@ + self.city_line());
                assert(join_lines(l, sep@) == join_lines(three, sep@) + sep@ + self.country@);
                assert(mid == self.street1@ + sep@ + s2@);
                assert(out@ =~= join_lines(l, sep@));
            } else {
                let two = seq![self.street1@, self.city_line()];
                assert(two.drop_last() =~= first);
                assert(l.drop_last() =~= two);
                assert(join_lines(two, sep@) == join_lines(first, sep@) + sep@ + self.city_line());
                assert(join_lines(l, sep@) == join_lines(two, sep@) + sep@ + self.country@);
                assert(mid == self.street1@);
                assert(out@ =~= join_lines(l, sep@));
            }
        }
        out
    }

    /// The address on one line, parts separated by `", "`.
    pub fn format_single_line(&self) -> (r: String)
        ensures
            r@ == join_lines(self.lines(), ", "@),
    {
        self.joined(", ")
    }

    /// The address on several lines, one part per line.
    pub fn format_multi_line(&self) -> (r: String)
        ensures
            r@ == join_lines(self.lines(), "\n"@),
    {
        self.joined("\n")
    }
}

/// `parts` joined by `sep`.
pub open spec fn join_lines(parts: Seq<Seq<char>>, sep: Seq<char>) -> Seq<char>
    decreases parts.len(),
{
    if parts.len() == 0 {
        Seq::empty()
    } else if parts.len() == 1 {
        parts[0]
    } else {
        join_lines(parts.drop_last(), sep) + sep + parts.last()
    }
}

/// Kinds of location.
#[derive(Clone, Copy, Debug, PartialEq, Eq, Hash, Structural)]
pub enum LocationType {
    /// Physical location with real-world presence.
    Physical,
    /// Virtual location (an online meeting room, a game world).
    Virtual,
    /// Logical location (a department, a zone).
    Logical,
    /// Both physical and virtual aspects.
    Hybrid,
}

impl LocationType {
    pub fn can_have_physical_attributes(&self) -> (r: bool)
        ensures
            r == (*self == LocationType::Physical || *self == LocationType::Hybrid),
    {
        matches!(self, LocationType::Physical | LocationType::Hybrid)
    }

    pub fn can_have_virtual_attributes(&self) -> (r: bool)
        ensures
            r == (*self == LocationType::Virtual || *self == LocationType::Hybrid),
    {
        matches!(self, LocationType::Virtual | LocationType::Hybrid)
    }

    /// The name of the type, such as `Physical`.
    pub fn to_string(&self) -> (r: String)
        ensures
            r@ == match *self {
                LocationType::Physical => "Physical"@,
                LocationType::Virtual => "Virtual"@,
                LocationType::Logical => "Logical"@,
                LocationType::Hybrid => "Hybrid"@,
            },
    {
        match self {
            LocationType::Physical => String::from_str("Physical"),
            LocationType::Virtual => String::from_str("Virtual"),
            LocationType::Logical => String::from_str("Logical"),
            LocationType::Hybrid => String::from_str("Hybrid"),
        }
    }
}

/// Micro-degrees in one degree.
pub const MICRO_DEGREES: i64 = 1_000_000;

/// Geographic coordinates, in millionths of a degree.
#[derive(Clone, Debug, PartialEq, Eq)]
pub struct GeoCoordinates {
    /// Latitude in micro-degrees (-90 to 90 degrees).
    pub latitude: i64,
    /// Longitude in micro-degrees (-180 to 180 degrees).
    pub longitude: i64,
    /// Altitude in millimetres.
    pub altitude: Option<i64>,
    /// Coordinate system, `WGS84` unless set otherwise.
    pub coordinate_system: String,
}

impl GeoCoordinates {
    pub open spec fn latitude_in_range(self) -> bool {
        -90 * MICRO_DEGREES <= self.latitude <= 90 * MICRO_DEGREES
    }

    pub open spec fn longitude_in_range(self) -> bool {
        -180 * MICRO_DEGREES <= self.longitude <= 180 * MICRO_DEGREES
    }

    pub open spec fn is_valid(self) -> bool {
        self.latitude_in_range() && self.longitude_in_range()
    }

    /// Coordinates in WGS84, without altitude.
    pub fn new(latitude: i64, longitude: i64) -> (r: GeoCoordinates)
        ensures
            r.latitude == latitude,
            r.longitude == longitude,
            r.altitude is None,
            r.coordinate_system@ == "WGS84"@,
    {
        GeoCoordinates {
            latitude,
            longitude,
            altitude: None,
            coordinate_system: String::from_str("WGS84"),
        }
    }

    pub fn with_altitude(self, altitude: i64) -> (r: GeoCoordinates)
        ensures
            r == (GeoCoordinates { altitude: Some(altitude), ..self }),
    {
        GeoCoordinates { altitude: Some(altitude), ..self }
    }

    pub fn with_coordinate_system(self, system: String) -> (r: GeoCoordinates)
        ensures
            r == (GeoCoordinates { coordinate_system: system, ..self }),
    {
        GeoCoordinates { coordinate_system: system, ..self }
    }

    /// What [`GeoCoordinates::validate`] returns.
    pub open spec fn validate_result(self) -> Result<(), DomainError> {
        if !self.latitude_in_range() {
            Err(DomainError::ValidationError(ValidationRule::LatitudeOutOfRange))
        } else if !self.longitude_in_range() {
            Err(DomainError::ValidationError(ValidationRule::LongitudeOutOfRange))
        } else {
            Ok(())
        }
    }

    /// Fails when the latitude, then when the longitude, is out of range.
    pub fn validate(&self) -> (r: Result<(), DomainError>)
        ensures
            r == self.validate_result(),
    {
        if self.latitude < -90 * MICRO_DEGREES || self.latitude > 90 * MICRO_DEGREES {
            return Err(DomainError::ValidationError(ValidationRule::LatitudeOutOfRange));
        }
        if self.longitude < -180 * MICRO_DEGREES || self.longitude > 180 * MICRO_DEGREES {
            return Err(DomainError::ValidationError(ValidationRule::LongitudeOutOfRange));
        }
        Ok(())
    }
}

/// Half of `x`, rounded toward negative infinity.
fn half_floor(x: i128) -> (r: i128)
    requires
        -0x1_0000_0000_0000_0000 <= x <= 0x1_0000_0000_0000_0000,
    ensures
        r == x / 2,
{
    if x >= 0 {
        x / 2
    } else {
        let n: i128 = -x;
        let q: i128 = n / 2;
        if n % 2 == 0 {
            -q
        } else {
            -q - 1
        }
    }
}

/// A latitude / longitude box, bounds included, in millionths of a degree.
#[derive(Clone, Copy, Debug, PartialEq, Eq, Structural)]
pub struct BoundingBox {
    pub min_lat: i64,
    pub max_lat: i64,
    pub min_lon: i64,
    pub max_lon: i64,
}

impl BoundingBox {
    /// Whether the point lies in the box.
    pub fn contains(&self, coords: &GeoCoordinates) -> (r: bool)
        ensures
            r == (self.min_lat <= coords.latitude <= self.max_lat && self.min_lon
                <= coords.longitude <= self.max_lon),
    {
        coords.latitude >= self.min_lat && coords.latitude <= self.max_lat && coords.longitude
            >= self.min_lon && coords.longitude <= self.max_lon
    }

    /// The midpoint of the box (halves rounded toward negative infinity), in WGS84.
    pub fn center(&self) -> (r: GeoCoordinates)
        ensures
            r.latitude == (self.min_lat + self.max_lat) / 2,
            r.longitude == (self.min_lon + self.max_lon) / 2,
            r.altitude is None,
            r.coordinate_system@ == "WGS84"@,
    {
        let lat = half_floor(self.min_lat as i128 + self.max_lat as i128);
        let lon = half_floor(self.min_lon as i128 + self.max_lon as i128);
        GeoCoordinates::new(lat as i64, lon as i64)
    }
}

} // verus!
