//! Voting records: countries, counties, districts, precincts, tellers,
//! sessions, candidates, administrator accounts and vote counts.
//!
//! Most operations demand that the signer hold administrator access level 1;
//! granting and revoking that access (`new_admin`, `destroy_admin`) is left
//! to the root caller, so checking that a call comes from root stays with the
//! caller. Each operation checks its inputs in the order its errors are
//! declared and commits only when every check passes.

use vstd::prelude::*;

use crate::bytes::clone_bytes;
use crate::json::get_array_element;
use crate::json::get_complex_field;
use crate::json::get_field;
use crate::json::is_well_formed;
use crate::json::lemma_array_item_scan_bound;
use crate::json::spec_get_array_element;
use crate::json::spec_get_complex_field;
use crate::json::spec_get_field;
use crate::json::spec_is_well_formed;
use crate::keys::key_countryid;
use crate::keys::key_countyid;
use crate::keys::spec_key_countryid;
use crate::keys::spec_key_countyid;
use crate::keys::key_datestart;
use crate::keys::key_dateend;
use crate::keys::key_description;
use crate::keys::key_districtid;
use crate::keys::key_name;
use crate::keys::key_precintid;
use crate::keys::key_sessionid;
use crate::keys::key_url;
use crate::keys::spec_key_datestart;
use crate::keys::spec_key_dateend;
use crate::keys::spec_key_description;
use crate::keys::spec_key_districtid;
use crate::keys::spec_key_name;
use crate::keys::spec_key_precintid;
use crate::keys::spec_key_sessionid;
use crate::keys::spec_key_url;
use crate::numbers::spec_vecu8_to_u32;
use crate::numbers::vecu8_to_u32;
use crate::store::lemma_eq_matches_view_pair;
use crate::store::lemma_eq_matches_view_quad;
use crate::store::lemma_eq_matches_view_u64;
use crate::store::KvMap;
use crate::validate::spec_validate_weburl;
use crate::validate::validate_weburl;

verus! {

/// Account identifiers, as plain integers.
pub type AccountId = u64;

#[derive(Clone, Copy, Debug, PartialEq, Eq, Structural)]
pub enum Error {
    /// Id cannot be zero
    IdCannotBeZero,
    /// The signer is not an administrator account
    SignerHasNoAccess,
    /// Account already configured as administrator
    AdministratorAlreadyPresent,
    /// Administrator account not found
    AdministratorNotFound,
    /// Note is too long
    NoteTooLong,
    CountryNameTooShort,
    CountryNameToolong,
    CountryAlreadyPresent,
    CountryNotFound,
    CountyNameTooShort,
    CountyNameToolong,
    CountyAlreadyPresent,
    CountyNotFound,
    DistrictNameTooShort,
    DistrictNameToolong,
    DistrictAlreadyPresent,
    DistrictNotFound,
    PrecintNameTooShort,
    PrecintNameToolong,
    PrecintAlreadyPresent,
    PrecintNotFound,
    TellerNameTooShort,
    TellerNameToolong,
    TellerAlreadyPresent,
    TellerNotFound,
    InvalidJson,
    TellerNameIsTooShort,
    TellerNameIsTooLong,
    MissingDistrictId,
    PrecintDistrictNotFound,
    SessionAlreadyPresent,
    DataTooLong,
    SessionDescriptionIsTooShort,
    SessionDescriptionIsTooLong,
    DateStartisWrong,
    DateEndisWrong,
    SessionIdNotFound,
    CandidateAlreadyPresent,
    CandidateNameIsTooShort,
    CandidateNameIsTooLong,
    UrlNotValid,
    CandidateNotFound,
    TellerNotValidforPrecintid,
    TellerNotValidforDistrictid,
    TellerNotValidforSessionid,
    WrongVotesNumber,
}

#[derive(Debug, PartialEq, Eq)]
pub enum Event {
    AdministratorCreated(AccountId, u32, Vec<u8>),
    AdministratorDestroyed(AccountId, u32),
    CountryCreated(u32, Vec<u8>),
    CountryDestroyed(u32),
    CountyCreated(u32, u32, Vec<u8>),
    CountyDestroyed(u32, u32),
    DistrictCreated(u32, u32, Vec<u8>),
    DistrictDestroyed(u32, u32),
    PrecintCreated(u32, u32, Vec<u8>),
    PrecintDestroyed(u32, u32),
    TellerCreated(AccountId, Vec<u8>),
    TellerDestroyed(AccountId),
    SessionCreated(u32, Vec<u8>),
    SessionDestroyed(u32),
    CandidateCreated(u32, Vec<u8>),
    CandidateDestroyed(u32),
    VotesUpdated(u32, u32, u32, u32, u32),
}

/// The abstract state: every store as a map, and the event log.
#[verifier::ext_equal]
pub struct State {
    pub countries: Map<u64, Seq<u8>>,
    pub counties: Map<(u64, u64), Seq<u8>>,
    pub districts: Map<(u64, u64), Seq<u8>>,
    pub precints: Map<(u64, u64), Seq<u8>>,
    pub tellers: Map<u64, Seq<u8>>,
    pub sessions: Map<u64, Seq<u8>>,
    pub candidates: Map<u64, Seq<u8>>,
    pub administrators: Map<(u64, u64), Seq<u8>>,
    pub votes: Map<(u64, u64, u64, u64), u32>,
    pub events: Seq<Event>,
}

/// The voting records and the events they have emitted.
pub struct Pallet {
    countries: KvMap<u64, Vec<u8>>,
    counties: KvMap<(u64, u64), Vec<u8>>,
    districts: KvMap<(u64, u64), Vec<u8>>,
    precints: KvMap<(u64, u64), Vec<u8>>,
    tellers: KvMap<u64, Vec<u8>>,
    sessions: KvMap<u64, Vec<u8>>,
    candidates: KvMap<u64, Vec<u8>>,
    administrators: KvMap<(u64, u64), Vec<u8>>,
    votes: KvMap<(u64, u64, u64, u64), u32>,
    events: Vec<Event>,
}

impl View for Pallet {
    type V = State;

    closed spec fn view(&self) -> State {
        State {
            countries: self.countries@,
            counties: self.counties@,
            districts: self.districts@,
            precints: self.precints@,
            tellers: self.tellers@,
            sessions: self.sessions@,
            candidates: self.candidates@,
            administrators: self.administrators@,
            votes: self.votes@,
            events: self.events@,
        }
    }
}

impl Pallet {
    pub closed spec fn wf(&self) -> bool {
        &&& self.countries.wf()
        &&& self.counties.wf()
        &&& self.districts.wf()
        &&& self.precints.wf()
        &&& self.tellers.wf()
        &&& self.sessions.wf()
        &&& self.candidates.wf()
        &&& self.administrators.wf()
        &&& self.votes.wf()
    }

    pub fn new() -> (r: Pallet)
        ensures
            r.wf(),
            r@.countries == Map::<u64, Seq<u8>>::empty(),
            r@.counties == Map::<(u64, u64), Seq<u8>>::empty(),
            r@.districts == Map::<(u64, u64), Seq<u8>>::empty(),
            r@.precints == Map::<(u64, u64), Seq<u8>>::empty(),
            r@.tellers == Map::<u64, Seq<u8>>::empty(),
            r@.sessions == Map::<u64, Seq<u8>>::empty(),
            r@.candidates == Map::<u64, Seq<u8>>::empty(),
            r@.administrators == Map::<(u64, u64), Seq<u8>>::empty(),
            r@.votes == Map::<(u64, u64, u64, u64), u32>::empty(),
            r@.events == Seq::<Event>::empty(),
    {
        Pallet {
            countries: KvMap::new(),
            counties: KvMap::new(),
            districts: KvMap::new(),
            precints: KvMap::new(),
            tellers: KvMap::new(),
            sessions: KvMap::new(),
            candidates: KvMap::new(),
            administrators: KvMap::new(),
            votes: KvMap::new(),
            events: Vec::new(),
        }
    }

    /// The most recent event, if any.
    pub fn last_event(&self) -> (r: Option<&Event>)
        ensures
            match r {
                Some(e) => self@.events.len() > 0 && *e == self@.events.last(),
                None => self@.events.len() == 0,
            },
    {
        if self.events.len() == 0 {
            None
        } else {
            Some(&self.events[self.events.len() - 1])
        }
    }

    /// The signer holds administrator access level 1.
    pub open spec fn is_admin(s: State, sender: AccountId) -> bool {
        s.administrators.contains_key((sender, 1))
    }

    fn check_admin(&self, sender: AccountId) -> (r: bool)
        requires
            self.wf(),
        ensures
            r == Self::is_admin(self@, sender),
    {
        proof {
            lemma_eq_matches_view_pair();
        }
        self.administrators.contains_key(&(sender, 1u64))
    }

    /// Outcome of `new_country`.
    pub open spec fn new_country_outcome(s: State, sender: AccountId, id: u32, name: Seq<u8>) -> Result<
        (),
        Error,
    > {
        if !Self::is_admin(s, sender) {
            Err(Error::SignerHasNoAccess)
        } else if name.len() == 0 {
            Err(Error::CountryNameTooShort)
        } else if name.len() >= 64 {
            Err(Error::CountryNameToolong)
        } else if id == 0 {
            Err(Error::IdCannotBeZero)
        } else if s.countries.contains_key(id as u64) {
            Err(Error::CountryAlreadyPresent)
        } else {
            Ok(())
        }
    }

    /// Create a country.
    pub fn new_country(&mut self, sender: AccountId, id: u32, name: Vec<u8>) -> (r: Result<
        (),
        Error,
    >)
        requires
            old(self).wf(),
        ensures
            final(self).wf(),
            r == Self::new_country_outcome(old(self)@, sender, id, name@),
            r is Ok ==> final(self)@ == (State {
                countries: old(self)@.countries.insert(id as u64, name@),
                events: old(self)@.events.push(Event::CountryCreated(id, name)),
                ..old(self)@
            }),
            r is Err ==> *final(self) == *old(self),
    {
        proof {
            lemma_eq_matches_view_u64();
        }
        if !self.check_admin(sender) {
            return Err(Error::SignerHasNoAccess);
        }
        if name.len() == 0 {
            return Err(Error::CountryNameTooShort);
        }
        if name.len() >= 64 {
            return Err(Error::CountryNameToolong);
        }
        if id == 0 {
            return Err(Error::IdCannotBeZero);
        }
        if self.countries.contains_key(&(id as u64)) {
            return Err(Error::CountryAlreadyPresent);
        }
        let stored = clone_bytes(&name);
        self.countries.insert(id as u64, stored);
        self.events.push(Event::CountryCreated(id, name));
        proof {
            assert(self@ =~= (State {
                countries: old(self)@.countries.insert(id as u64, name@),
                events: self@.events,
                ..old(self)@
            }));
        }
        Ok(())
    }

    /// Outcome of `destroy_country`.
    pub open spec fn destroy_country_outcome(s: State, sender: AccountId, id: u32) -> Result<
        (),
        Error,
    > {
        if !Self::is_admin(s, sender) {
            Err(Error::SignerHasNoAccess)
        } else if !s.countries.contains_key(id as u64) {
            Err(Error::CountryNotFound)
        } else {
            Ok(())
        }
    }

    /// Destroy a country.
    pub fn destroy_country(&mut self, sender: AccountId, id: u32) -> (r: Result<(), Error>)
        requires
            old(self).wf(),
        ensures
            final(self).wf(),
            r == Self::destroy_country_outcome(old(self)@, sender, id),
            r is Ok ==> final(self)@ == (State {
                countries: old(self)@.countries.remove(id as u64),
                events: old(self)@.events.push(Event::CountryDestroyed(id)),
                ..old(self)@
            }),
            r is Err ==> *final(self) == *old(self),
    {
        proof {
            lemma_eq_matches_view_u64();
        }
        if !self.check_admin(sender) {
            return Err(Error::SignerHasNoAccess);
        }
        if !self.countries.contains_key(&(id as u64)) {
            return Err(Error::CountryNotFound);
        }
        self.countries.remove(&(id as u64));
        self.events.push(Event::CountryDestroyed(id));
        proof {
            assert(self@ =~= (State {
                countries: old(self)@.countries.remove(id as u64),
                events: self@.events,
                ..old(self)@
            }));
        }
        Ok(())
    }

    /// Outcome of `new_county`.
    pub open spec fn new_county_outcome(
        s: State,
        sender: AccountId,
        id: u32,
        idcountry: u32,
        name: Seq<u8>,
    ) -> Result<(), Error> {
        if !Self::is_admin(s, sender) {
            Err(Error::SignerHasNoAccess)
        } else if name.len() == 0 {
            Err(Error::CountyNameTooShort)
        } else if name.len() >= 64 {
            Err(Error::CountyNameToolong)
        } else if id == 0 {
            Err(Error::IdCannotBeZero)
        } else if !s.countries.contains_key(idcountry as u64) {
            Err(Error::CountryNotFound)
        } else if s.counties.contains_key((id as u64, idcountry as u64)) {
            Err(Error::CountyAlreadyPresent)
        } else {
            Ok(())
        }
    }

    /// Create a county inside an existing country.
    pub fn new_county(&mut self, sender: AccountId, id: u32, idcountry: u32, name: Vec<u8>) -> (r:
        Result<(), Error>)
        requires
            old(self).wf(),
        ensures
            final(self).wf(),
            r == Self::new_county_outcome(old(self)@, sender, id, idcountry, name@),
            r is Ok ==> final(self)@ == (State {
                counties: old(self)@.counties.insert((id as u64, idcountry as u64), name@),
                events: old(self)@.events.push(Event::CountyCreated(id, idcountry, name)),
                ..old(self)@
            }),
            r is Err ==> *final(self) == *old(self),
    {
        proof {
            lemma_eq_matches_view_u64();
            lemma_eq_matches_view_pair();
        }
        if !self.check_admin(sender) {
            return Err(Error::SignerHasNoAccess);
        }
        if name.len() == 0 {
            return Err(Error::CountyNameTooShort);
        }
        if name.len() >= 64 {
            return Err(Error::CountyNameToolong);
        }
        if id == 0 {
            return Err(Error::IdCannotBeZero);
        }
        if !self.countries.contains_key(&(idcountry as u64)) {
            return Err(Error::CountryNotFound);
        }
        if self.counties.contains_key(&(id as u64, idcountry as u64)) {
            return Err(Error::CountyAlreadyPresent);
        }
        let stored = clone_bytes(&name);
        self.counties.insert((id as u64, idcountry as u64), stored);
        self.events.push(Event::CountyCreated(id, idcountry, name));
        proof {
            assert(self@ =~= (State {
                counties: old(self)@.counties.insert((id as u64, idcountry as u64), name@),
                events: self@.events,
                ..old(self)@
            }));
        }
        Ok(())
    }

    /// Outcome of `destroy_county`.
    pub open spec fn destroy_county_outcome(s: State, sender: AccountId, id: u32, countryid: u32) -> Result<
        (),
        Error,
    > {
        if !Self::is_admin(s, sender) {
            Err(Error::SignerHasNoAccess)
        } else if !s.counties.contains_key((id as u64, countryid as u64)) {
            Err(Error::CountyNotFound)
        } else {
            Ok(())
        }
    }

    /// Destroy a county.
    pub fn destroy_county(&mut self, sender: AccountId, id: u32, countryid: u32) -> (r: Result<
        (),
        Error,
    >)
        requires
            old(self).wf(),
        ensures
            final(self).wf(),
            r == Self::destroy_county_outcome(old(self)@, sender, id, countryid),
            r is Ok ==> final(self)@ == (State {
                counties: old(self)@.counties.remove((id as u64, countryid as u64)),
                events: old(self)@.events.push(Event::CountyDestroyed(id, countryid)),
                ..old(self)@
            }),
            r is Err ==> *final(self) == *old(self),
    {
        proof {
            lemma_eq_matches_view_pair();
        }
        if !self.check_admin(sender) {
            return Err(Error::SignerHasNoAccess);
        }
        if !self.counties.contains_key(&(id as u64, countryid as u64)) {
            return Err(Error::CountyNotFound);
        }
        self.counties.remove(&(id as u64, countryid as u64));
        self.events.push(Event::CountyDestroyed(id, countryid));
        proof {
            assert(self@ =~= (State {
                counties: old(self)@.counties.remove((id as u64, countryid as u64)),
                events: self@.events,
                ..old(self)@
            }));
        }
        Ok(())
    }

    /// Outcome of `new_district`.
    pub open spec fn new_district_outcome(
        s: State,
        sender: AccountId,
        id: u32,
        idcounty: u32,
        name: Seq<u8>,
    ) -> Result<(), Error> {
        if !Self::is_admin(s, sender) {
            Err(Error::SignerHasNoAccess)
        } else if name.len() == 0 {
            Err(Error::DistrictNameTooShort)
        } else if name.len() >= 64 {
            Err(Error::DistrictNameToolong)
        } else if id == 0 {
            Err(Error::IdCannotBeZero)
        } else if s.districts.contains_key((id as u64, idcounty as u64)) {
            Err(Error::DistrictAlreadyPresent)
        } else {
            Ok(())
        }
    }

    /// Create a district inside a county.
    pub fn new_district(&mut self, sender: AccountId, id: u32, idcounty: u32, name: Vec<u8>) -> (r:
        Result<(), Error>)
        requires
            old(self).wf(),
        ensures
            final(self).wf(),
            r == Self::new_district_outcome(old(self)@, sender, id, idcounty, name@),
            r is Ok ==> final(self)@ == (State {
                districts: old(self)@.districts.insert((id as u64, idcounty as u64), name@),
                events: old(self)@.events.push(Event::DistrictCreated(id, idcounty, name)),
                ..old(self)@
            }),
            r is Err ==> *final(self) == *old(self),
    {
        proof {
            lemma_eq_matches_view_pair();
        }
        if !self.check_admin(sender) {
            return Err(Error::SignerHasNoAccess);
        }
        if name.len() == 0 {
            return Err(Error::DistrictNameTooShort);
        }
        if name.len() >= 64 {
            return Err(Error::DistrictNameToolong);
        }
        if id == 0 {
            return Err(Error::IdCannotBeZero);
        }
        if self.districts.contains_key(&(id as u64, idcounty as u64)) {
            return Err(Error::DistrictAlreadyPresent);
        }
        let stored = clone_bytes(&name);
        self.districts.insert((id as u64, idcounty as u64), stored);
        self.events.push(Event::DistrictCreated(id, idcounty, name));
        proof {
            assert(self@ =~= (State {
                districts: old(self)@.districts.insert((id as u64, idcounty as u64), name@),
                events: self@.events,
                ..old(self)@
            }));
        }
        Ok(())
    }

    /// Outcome of `destroy_district`.
    pub open spec fn destroy_district_outcome(s: State, sender: AccountId, id: u32, countyid: u32) -> Result<
        (),
        Error,
    > {
        if !Self::is_admin(s, sender) {
            Err(Error::SignerHasNoAccess)
        } else if !s.districts.contains_key((id as u64, countyid as u64)) {
            Err(Error::DistrictNotFound)
        } else {
            Ok(())
        }
    }

    /// Destroy a district.
    pub fn destroy_district(&mut self, sender: AccountId, id: u32, countyid: u32) -> (r: Result<
        (),
        Error,
    >)
        requires
            old(self).wf(),
        ensures
            final(self).wf(),
            r == Self::destroy_district_outcome(old(self)@, sender, id, countyid),
            r is Ok ==> final(self)@ == (State {
                districts: old(self)@.districts.remove((id as u64, countyid as u64)),
                events: old(self)@.events.push(Event::DistrictDestroyed(id, countyid)),
                ..old(self)@
            }),
            r is Err ==> *final(self) == *old(self),
    {
        proof {
            lemma_eq_matches_view_pair();
        }
        if !self.check_admin(sender) {
            return Err(Error::SignerHasNoAccess);
        }
        if !self.districts.contains_key(&(id as u64, countyid as u64)) {
            return Err(Error::DistrictNotFound);
        }
        self.districts.remove(&(id as u64, countyid as u64));
        self.events.push(Event::DistrictDestroyed(id, countyid));
        proof {
            assert(self@ =~= (State {
                districts: old(self)@.districts.remove((id as u64, countyid as u64)),
                events: self@.events,
                ..old(self)@
            }));
        }
        Ok(())
    }

    /// Outcome of `new_precint`.
    pub open spec fn new_precint_outcome(
        s: State,
        sender: AccountId,
        id: u32,
        iddistrict: u32,
        name: Seq<u8>,
    ) -> Result<(), Error> {
        if !Self::is_admin(s, sender) {
            Err(Error::SignerHasNoAccess)
        } else if name.len() == 0 {
            Err(Error::PrecintNameTooShort)
        } else if name.len() >= 64 {
            Err(Error::PrecintNameToolong)
        } else if id == 0 {
            Err(Error::IdCannotBeZero)
        } else if s.precints.contains_key((id as u64, iddistrict as u64)) {
            Err(Error::PrecintAlreadyPresent)
        } else {
            Ok(())
        }
    }

    /// Create a precinct inside a district.
    pub fn new_precint(&mut self, sender: AccountId, id: u32, iddistrict: u32, name: Vec<u8>) -> (r:
        Result<(), Error>)
        requires
            old(self).wf(),
        ensures
            final(self).wf(),
            r == Self::new_precint_outcome(old(self)@, sender, id, iddistrict, name@),
            r is Ok ==> final(self)@ == (State {
                precints: old(self)@.precints.insert((id as u64, iddistrict as u64), name@),
                events: old(self)@.events.push(Event::PrecintCreated(id, iddistrict, name)),
                ..old(self)@
            }),
            r is Err ==> *final(self) == *old(self),
    {
        proof {
            lemma_eq_matches_view_pair();
        }
        if !self.check_admin(sender) {
            return Err(Error::SignerHasNoAccess);
        }
        if name.len() == 0 {
            return Err(Error::PrecintNameTooShort);
        }
        if name.len() >= 64 {
            return Err(Error::PrecintNameToolong);
        }
        if id == 0 {
            return Err(Error::IdCannotBeZero);
        }
        if self.precints.contains_key(&(id as u64, iddistrict as u64)) {
            return Err(Error::PrecintAlreadyPresent);
        }
        let stored = clone_bytes(&name);
        self.precints.insert((id as u64, iddistrict as u64), stored);
        self.events.push(Event::PrecintCreated(id, iddistrict, name));
        proof {
            assert(self@ =~= (State {
                precints: old(self)@.precints.insert((id as u64, iddistrict as u64), name@),
                events: self@.events,
                ..old(self)@
            }));
        }
        Ok(())
    }

    /// Outcome of `destroy_precint`.
    pub open spec fn destroy_precint_outcome(s: State, sender: AccountId, id: u32, districtid: u32) -> Result<
        (),
        Error,
    > {
        if !Self::is_admin(s, sender) {
            Err(Error::SignerHasNoAccess)
        } else if !s.precints.contains_key((id as u64, districtid as u64)) {
            Err(Error::PrecintNotFound)
        } else {
            Ok(())
        }
    }

    /// Destroy a precinct. The emitted event is a district-destroyed event,
    /// the notification its consumers key on.
    pub fn destroy_precint(&mut self, sender: AccountId, id: u32, districtid: u32) -> (r: Result<
        (),
        Error,
    >)
        requires
            old(self).wf(),
        ensures
            final(self).wf(),
            r == Self::destroy_precint_outcome(old(self)@, sender, id, districtid),
            r is Ok ==> final(self)@ == (State {
                precints: old(self)@.precints.remove((id as u64, districtid as u64)),
                events: old(self)@.events.push(Event::DistrictDestroyed(id, districtid)),
                ..old(self)@
            }),
            r is Err ==> *final(self) == *old(self),
    {
        proof {
            lemma_eq_matches_view_pair();
        }
        if !self.check_admin(sender) {
            return Err(Error::SignerHasNoAccess);
        }
        if !self.precints.contains_key(&(id as u64, districtid as u64)) {
            return Err(Error::PrecintNotFound);
        }
        self.precints.remove(&(id as u64, districtid as u64));
        self.events.push(Event::DistrictDestroyed(id, districtid));
        proof {
            assert(self@ =~= (State {
                precints: old(self)@.precints.remove((id as u64, districtid as u64)),
                events: self@.events,
                ..old(self)@
            }));
        }
        Ok(())
    }

    /// Outcome of `destroy_teller`.
    pub open spec fn destroy_teller_outcome(s: State, sender: AccountId, account: AccountId) -> Result<
        (),
        Error,
    > {
        if !Self::is_admin(s, sender) {
            Err(Error::SignerHasNoAccess)
        } else if !s.tellers.contains_key(account) {
            Err(Error::TellerNotFound)
        } else {
            Ok(())
        }
    }

    /// Remove a teller account.
    pub fn destroy_teller(&mut self, sender: AccountId, account: AccountId) -> (r: Result<
        (),
        Error,
    >)
        requires
            old(self).wf(),
        ensures
            final(self).wf(),
            r == Self::destroy_teller_outcome(old(self)@, sender, account),
            r is Ok ==> final(self)@ == (State {
                tellers: old(self)@.tellers.remove(account),
                events: old(self)@.events.push(Event::TellerDestroyed(account)),
                ..old(self)@
            }),
            r is Err ==> *final(self) == *old(self),
    {
        proof {
            lemma_eq_matches_view_u64();
        }
        if !self.check_admin(sender) {
            return Err(Error::SignerHasNoAccess);
        }
        if !self.tellers.contains_key(&account) {
            return Err(Error::TellerNotFound);
        }
        self.tellers.remove(&account);
        self.events.push(Event::TellerDestroyed(account));
        proof {
            assert(self@ =~= (State {
                tellers: old(self)@.tellers.remove(account),
                events: self@.events,
                ..old(self)@
            }));
        }
        Ok(())
    }

    /// Outcome of `destroy_session`.
    pub open spec fn destroy_session_outcome(s: State, sender: AccountId, id: u32) -> Result<
        (),
        Error,
    > {
        if !Self::is_admin(s, sender) {
            Err(Error::SignerHasNoAccess)
        } else if !s.sessions.contains_key(id as u64) {
            Err(Error::SessionIdNotFound)
        } else {
            Ok(())
        }
    }

    /// Remove a voting session.
    pub fn destroy_session(&mut self, sender: AccountId, id: u32) -> (r: Result<(), Error>)
        requires
            old(self).wf(),
        ensures
            final(self).wf(),
            r == Self::destroy_session_outcome(old(self)@, sender, id),
            r is Ok ==> final(self)@ == (State {
                sessions: old(self)@.sessions.remove(id as u64),
                events: old(self)@.events.push(Event::SessionDestroyed(id)),
                ..old(self)@
            }),
            r is Err ==> *final(self) == *old(self),
    {
        proof {
            lemma_eq_matches_view_u64();
        }
        if !self.check_admin(sender) {
            return Err(Error::SignerHasNoAccess);
        }
        if !self.sessions.contains_key(&(id as u64)) {
            return Err(Error::SessionIdNotFound);
        }
        self.sessions.remove(&(id as u64));
        self.events.push(Event::SessionDestroyed(id));
        proof {
            assert(self@ =~= (State {
                sessions: old(self)@.sessions.remove(id as u64),
                events: self@.events,
                ..old(self)@
            }));
        }
        Ok(())
    }

    /// Outcome of `destroy_candidate`.
    pub open spec fn destroy_candidate_outcome(s: State, sender: AccountId, id: u32) -> Result<
        (),
        Error,
    > {
        if !Self::is_admin(s, sender) {
            Err(Error::SignerHasNoAccess)
        } else if !s.candidates.contains_key(id as u64) {
            Err(Error::CandidateNotFound)
        } else {
            Ok(())
        }
    }

    /// Remove a candidate.
    pub fn destroy_candidate(&mut self, sender: AccountId, id: u32) -> (r: Result<(), Error>)
        requires
            old(self).wf(),
        ensures
            final(self).wf(),
            r == Self::destroy_candidate_outcome(old(self)@, sender, id),
            r is Ok ==> final(self)@ == (State {
                candidates: old(self)@.candidates.remove(id as u64),
                events: old(self)@.events.push(Event::CandidateDestroyed(id)),
                ..old(self)@
            }),
            r is Err ==> *final(self) == *old(self),
    {
        proof {
            lemma_eq_matches_view_u64();
        }
        if !self.check_admin(sender) {
            return Err(Error::SignerHasNoAccess);
        }
        if !self.candidates.contains_key(&(id as u64)) {
            return Err(Error::CandidateNotFound);
        }
        self.candidates.remove(&(id as u64));
        self.events.push(Event::CandidateDestroyed(id));
        proof {
            assert(self@ =~= (State {
                candidates: old(self)@.candidates.remove(id as u64),
                events: self@.events,
                ..old(self)@
            }));
        }
        Ok(())
    }

    /// Outcome of `new_admin`.
    pub open spec fn new_admin_outcome(s: State, account: AccountId, id: u32, note: Seq<u8>) -> Result<
        (),
        Error,
    > {
        if s.administrators.contains_key((account, id as u64)) {
            Err(Error::AdministratorAlreadyPresent)
        } else if note.len() >= 128 {
            Err(Error::NoteTooLong)
        } else {
            Ok(())
        }
    }

    /// Grant an account an administrator access level; for the root caller.
    pub fn new_admin(&mut self, account: AccountId, id: u32, note: Vec<u8>) -> (r: Result<
        (),
        Error,
    >)
        requires
            old(self).wf(),
        ensures
            final(self).wf(),
            r == Self::new_admin_outcome(old(self)@, account, id, note@),
            r is Ok ==> final(self)@ == (State {
                administrators: old(self)@.administrators.insert((account, id as u64), note@),
                events: old(self)@.events.push(Event::AdministratorCreated(account, id, note)),
                ..old(self)@
            }),
            r is Err ==> *final(self) == *old(self),
    {
        proof {
            lemma_eq_matches_view_pair();
        }
        if self.administrators.contains_key(&(account, id as u64)) {
            return Err(Error::AdministratorAlreadyPresent);
        }
        if note.len() >= 128 {
            return Err(Error::NoteTooLong);
        }
        let stored = clone_bytes(&note);
        self.administrators.insert((account, id as u64), stored);
        self.events.push(Event::AdministratorCreated(account, id, note));
        proof {
            assert(self@ =~= (State {
                administrators: old(self)@.administrators.insert((account, id as u64), note@),
                events: self@.events,
                ..old(self)@
            }));
        }
        Ok(())
    }

    /// Outcome of `destroy_admin`.
    pub open spec fn destroy_admin_outcome(s: State, account: AccountId, id: u32) -> Result<
        (),
        Error,
    > {
        if !s.administrators.contains_key((account, id as u64)) {
            Err(Error::AdministratorNotFound)
        } else {
            Ok(())
        }
    }

    /// Revoke an administrator access level; for the root caller.
    pub fn destroy_admin(&mut self, account: AccountId, id: u32) -> (r: Result<(), Error>)
        requires
            old(self).wf(),
        ensures
            final(self).wf(),
            r == Self::destroy_admin_outcome(old(self)@, account, id),
            r is Ok ==> final(self)@ == (State {
                administrators: old(self)@.administrators.remove((account, id as u64)),
                events: old(self)@.events.push(Event::AdministratorDestroyed(account, id)),
                ..old(self)@
            }),
            r is Err ==> *final(self) == *old(self),
    {
        proof {
            lemma_eq_matches_view_pair();
        }
        if !self.administrators.contains_key(&(account, id as u64)) {
            return Err(Error::AdministratorNotFound);
        }
        self.administrators.remove(&(account, id as u64));
        self.events.push(Event::AdministratorDestroyed(account, id));
        proof {
            assert(self@ =~= (State {
                administrators: old(self)@.administrators.remove((account, id as u64)),
                events: self@.events,
                ..old(self)@
            }));
        }
        Ok(())
    }

    /// Check that every element of a session-identifier array names a stored
    /// session.
    pub open spec fn sessions_array_check(s: State, ar: Seq<u8>, x: int) -> Result<(), Error>
        decreases ar.len() - x,
    {
        if !(0 <= x < ar.len()) {
            Ok(())
        } else if spec_get_array_element(ar, x).len() == 0 {
            Ok(())
        } else if !s.sessions.contains_key(
            spec_vecu8_to_u32(spec_get_array_element(ar, x)) as u64,
        ) {
            Err(Error::SessionIdNotFound)
        } else {
            Self::sessions_array_check(s, ar, x + 1)
        }
    }

    fn check_sessions_array(&self, ar: &Vec<u8>) -> (r: Result<(), Error>)
        requires
            self.wf(),
        ensures
            r == Self::sessions_array_check(self@, ar@, 0),
    {
        proof {
            lemma_eq_matches_view_u64();
        }
        let n = ar.len();
        let mut x: usize = 0;
        loop
            invariant
                self.wf(),
                n == ar@.len(),
                0 <= x <= ar@.len(),
                Self::sessions_array_check(self@, ar@, 0) == Self::sessions_array_check(
                    self@,
                    ar@,
                    x as int,
                ),
                crate::store::eq_matches_view::<u64>(),
            ensures
                Self::sessions_array_check(self@, ar@, 0) == Ok::<(), Error>(()),
            decreases ar@.len() - x,
        {
            let c = get_array_element(ar, x);
            if c.len() == 0 {
                break ;
            }
            proof {
                lemma_array_item_scan_bound(ar@, 0, 0, x as int, true, crate::json::SPACE);
            }
            let cv = vecu8_to_u32(&c);
            if !self.sessions.contains_key(&(cv as u64)) {
                return Err(Error::SessionIdNotFound);
            }
            x = x + 1;
        }
        Ok(())
    }

    /// Outcome of `new_teller`.
    pub open spec fn new_teller_outcome(
        s: State,
        sender: AccountId,
        account: AccountId,
        tellerdata: Seq<u8>,
    ) -> Result<(), Error> {
        let name = spec_get_field(tellerdata, spec_key_name());
        let precintid = spec_vecu8_to_u32(spec_get_field(tellerdata, spec_key_precintid()));
        let districtid = spec_vecu8_to_u32(spec_get_field(tellerdata, spec_key_districtid()));
        let sessionid = spec_get_complex_field(tellerdata, spec_key_sessionid());
        if !Self::is_admin(s, sender) {
            Err(Error::SignerHasNoAccess)
        } else if s.tellers.contains_key(account) {
            Err(Error::TellerAlreadyPresent)
        } else if tellerdata.len() >= 1024 {
            Err(Error::DataTooLong)
        } else if !spec_is_well_formed(tellerdata) {
            Err(Error::InvalidJson)
        } else if name.len() == 0 {
            Err(Error::TellerNameIsTooShort)
        } else if name.len() > 64 {
            Err(Error::TellerNameIsTooLong)
        } else if !s.precints.contains_key((precintid as u64, districtid as u64)) {
            Err(Error::PrecintDistrictNotFound)
        } else if sessionid.len() == 0 {
            Err(Error::MissingDistrictId)
        } else if Self::sessions_array_check(s, sessionid, 0) is Err {
            Self::sessions_array_check(s, sessionid, 0)
        } else {
            Ok(())
        }
    }

    /// Register a teller account with its data buffer: a `name`, an existing
    /// precinct/district pair, and a `sessionid` array of stored sessions.
    pub fn new_teller(&mut self, sender: AccountId, account: AccountId, tellerdata: Vec<u8>) -> (r:
        Result<(), Error>)
        requires
            old(self).wf(),
        ensures
            final(self).wf(),
            r == Self::new_teller_outcome(old(self)@, sender, account, tellerdata@),
            r is Ok ==> final(self)@ == (State {
                tellers: old(self)@.tellers.insert(account, tellerdata@),
                events: old(self)@.events.push(Event::TellerCreated(account, tellerdata)),
                ..old(self)@
            }),
            r is Err ==> *final(self) == *old(self),
    {
        proof {
            lemma_eq_matches_view_u64();
            lemma_eq_matches_view_pair();
        }
        if !self.check_admin(sender) {
            return Err(Error::SignerHasNoAccess);
        }
        if self.tellers.contains_key(&account) {
            return Err(Error::TellerAlreadyPresent);
        }
        if tellerdata.len() >= 1024 {
            return Err(Error::DataTooLong);
        }
        if !is_well_formed(&tellerdata) {
            return Err(Error::InvalidJson);
        }
        let name = get_field(&tellerdata, &key_name());
        if name.len() == 0 {
            return Err(Error::TellerNameIsTooShort);
        }
        if name.len() > 64 {
            return Err(Error::TellerNameIsTooLong);
        }
        let precintid_field = get_field(&tellerdata, &key_precintid());
        let precintid = vecu8_to_u32(&precintid_field);
        let districtid_field = get_field(&tellerdata, &key_districtid());
        let districtid = vecu8_to_u32(&districtid_field);
        if !self.precints.contains_key(&(precintid as u64, districtid as u64)) {
            return Err(Error::PrecintDistrictNotFound);
        }
        let sessionid = get_complex_field(&tellerdata, &key_sessionid());
        if sessionid.len() == 0 {
            return Err(Error::MissingDistrictId);
        }
        let checked = self.check_sessions_array(&sessionid);
        if let Err(e) = checked {
            return Err(e);
        }
        let stored = clone_bytes(&tellerdata);
        self.tellers.insert(account, stored);
        self.events.push(Event::TellerCreated(account, tellerdata));
        proof {
            assert(self@ =~= (State {
                tellers: old(self)@.tellers.insert(account, tellerdata@),
                events: self@.events,
                ..old(self)@
            }));
        }
        Ok(())
    }

    /// Outcome of `new_session`.
    pub open spec fn new_session_outcome(
        s: State,
        sender: AccountId,
        id: u32,
        sessiondata: Seq<u8>,
    ) -> Result<(), Error> {
        let description = spec_get_field(sessiondata, spec_key_description());
        let precintid = spec_vecu8_to_u32(spec_get_field(sessiondata, spec_key_precintid()));
        let districtid = spec_vecu8_to_u32(spec_get_field(sessiondata, spec_key_districtid()));
        let countyid = spec_vecu8_to_u32(spec_get_field(sessiondata, spec_key_countyid()));
        let countryid = spec_vecu8_to_u32(spec_get_field(sessiondata, spec_key_countryid()));
        let datestart = spec_get_field(sessiondata, spec_key_datestart());
        let dateend = spec_get_field(sessiondata, spec_key_dateend());
        let url = spec_get_field(sessiondata, spec_key_url());
        if !Self::is_admin(s, sender) {
            Err(Error::SignerHasNoAccess)
        } else if s.sessions.contains_key(id as u64) {
            Err(Error::SessionAlreadyPresent)
        } else if sessiondata.len() >= 1024 {
            Err(Error::DataTooLong)
        } else if !spec_is_well_formed(sessiondata) {
            Err(Error::InvalidJson)
        } else if description.len() == 0 {
            Err(Error::SessionDescriptionIsTooShort)
        } else if description.len() > 64 {
            Err(Error::SessionDescriptionIsTooLong)
        } else if countryid > 0 && !s.countries.contains_key(countryid as u64) {
            Err(Error::CountryNotFound)
        } else if countyid > 0 && !s.counties.contains_key((countyid as u64, countryid as u64)) {
            Err(Error::CountyNotFound)
        } else if districtid > 0 && !s.districts.contains_key(
            (districtid as u64, countyid as u64),
        ) {
            Err(Error::DistrictNotFound)
        } else if precintid > 0 && !s.precints.contains_key(
            (precintid as u64, districtid as u64),
        ) {
            Err(Error::PrecintNotFound)
        } else if datestart.len() != 10 {
            Err(Error::DateStartisWrong)
        } else if dateend.len() != 10 {
            Err(Error::DateEndisWrong)
        } else if !spec_validate_weburl(url) {
            Err(Error::UrlNotValid)
        } else {
            Ok(())
        }
    }

    /// Create a voting session from its data buffer: a description, optional
    /// territory references that must exist when nonzero, ten-byte start and
    /// end dates, and a valid URL.
    pub fn new_session(&mut self, sender: AccountId, id: u32, sessiondata: Vec<u8>) -> (r: Result<
        (),
        Error,
    >)
        requires
            old(self).wf(),
        ensures
            final(self).wf(),
            r == Self::new_session_outcome(old(self)@, sender, id, sessiondata@),
            r is Ok ==> final(self)@ == (State {
                sessions: old(self)@.sessions.insert(id as u64, sessiondata@),
                events: old(self)@.events.push(Event::SessionCreated(id, sessiondata)),
                ..old(self)@
            }),
            r is Err ==> *final(self) == *old(self),
    {
        proof {
            lemma_eq_matches_view_u64();
            lemma_eq_matches_view_pair();
        }
        if !self.check_admin(sender) {
            return Err(Error::SignerHasNoAccess);
        }
        if self.sessions.contains_key(&(id as u64)) {
            return Err(Error::SessionAlreadyPresent);
        }
        if sessiondata.len() >= 1024 {
            return Err(Error::DataTooLong);
        }
        if !is_well_formed(&sessiondata) {
            return Err(Error::InvalidJson);
        }
        let description = get_field(&sessiondata, &key_description());
        if description.len() == 0 {
            return Err(Error::SessionDescriptionIsTooShort);
        }
        if description.len() > 64 {
            return Err(Error::SessionDescriptionIsTooLong);
        }
        let precintid_field = get_field(&sessiondata, &key_precintid());
        let precintid = vecu8_to_u32(&precintid_field);
        let districtid_field = get_field(&sessiondata, &key_districtid());
        let districtid = vecu8_to_u32(&districtid_field);
        let countyid_field = get_field(&sessiondata, &key_countyid());
        let countyid = vecu8_to_u32(&countyid_field);
        let countryid_field = get_field(&sessiondata, &key_countryid());
        let countryid = vecu8_to_u32(&countryid_field);
        if countryid > 0 {
            if !self.countries.contains_key(&(countryid as u64)) {
                return Err(Error::CountryNotFound);
            }
        }
        if countyid > 0 {
            if !self.counties.contains_key(&(countyid as u64, countryid as u64)) {
                return Err(Error::CountyNotFound);
            }
        }
        if districtid > 0 {
            if !self.districts.contains_key(&(districtid as u64, countyid as u64)) {
                return Err(Error::DistrictNotFound);
            }
        }
        if precintid > 0 {
            if !self.precints.contains_key(&(precintid as u64, districtid as u64)) {
                return Err(Error::PrecintNotFound);
            }
        }
        let datestart = get_field(&sessiondata, &key_datestart());
        if datestart.len() != 10 {
            return Err(Error::DateStartisWrong);
        }
        let dateend = get_field(&sessiondata, &key_dateend());
        if dateend.len() != 10 {
            return Err(Error::DateEndisWrong);
        }
        let url = get_field(&sessiondata, &key_url());
        if !validate_weburl(&url) {
            return Err(Error::UrlNotValid);
        }
        let stored = clone_bytes(&sessiondata);
        self.sessions.insert(id as u64, stored);
        self.events.push(Event::SessionCreated(id, sessiondata));
        proof {
            assert(self@ =~= (State {
                sessions: old(self)@.sessions.insert(id as u64, sessiondata@),
                events: self@.events,
                ..old(self)@
            }));
        }
        Ok(())
    }

    /// Outcome of `new_candidate`.
    pub open spec fn new_candidate_outcome(
        s: State,
        sender: AccountId,
        id: u32,
        candidatedata: Seq<u8>,
    ) -> Result<(), Error> {
        let name = spec_get_field(candidatedata, spec_key_name());
        let sessionid = spec_vecu8_to_u32(spec_get_field(candidatedata, spec_key_sessionid()));
        let url = spec_get_field(candidatedata, spec_key_url());
        if !Self::is_admin(s, sender) {
            Err(Error::SignerHasNoAccess)
        } else if s.candidates.contains_key(id as u64) {
            Err(Error::CandidateAlreadyPresent)
        } else if candidatedata.len() >= 1024 {
            Err(Error::DataTooLong)
        } else if !spec_is_well_formed(candidatedata) {
            Err(Error::InvalidJson)
        } else if name.len() == 0 {
            Err(Error::CandidateNameIsTooShort)
        } else if name.len() > 64 {
            Err(Error::CandidateNameIsTooLong)
        } else if !s.sessions.contains_key(sessionid as u64) {
            Err(Error::SessionIdNotFound)
        } else if !spec_validate_weburl(url) {
            Err(Error::UrlNotValid)
        } else {
            Ok(())
        }
    }

    /// Register a candidate in an existing voting session.
    pub fn new_candidate(&mut self, sender: AccountId, id: u32, candidatedata: Vec<u8>) -> (r:
        Result<(), Error>)
        requires
            old(self).wf(),
        ensures
            final(self).wf(),
            r == Self::new_candidate_outcome(old(self)@, sender, id, candidatedata@),
            r is Ok ==> final(self)@ == (State {
                candidates: old(self)@.candidates.insert(id as u64, candidatedata@),
                events: old(self)@.events.push(Event::CandidateCreated(id, candidatedata)),
                ..old(self)@
            }),
            r is Err ==> *final(self) == *old(self),
    {
        proof {
            lemma_eq_matches_view_u64();
            lemma_eq_matches_view_pair();
        }
        if !self.check_admin(sender) {
            return Err(Error::SignerHasNoAccess);
        }
        if self.candidates.contains_key(&(id as u64)) {
            return Err(Error::CandidateAlreadyPresent);
        }
        if candidatedata.len() >= 1024 {
            return Err(Error::DataTooLong);
        }
        if !is_well_formed(&candidatedata) {
            return Err(Error::InvalidJson);
        }
        let name = get_field(&candidatedata, &key_name());
        if name.len() == 0 {
            return Err(Error::CandidateNameIsTooShort);
        }
        if name.len() > 64 {
            return Err(Error::CandidateNameIsTooLong);
        }
        let sessionid_field = get_field(&candidatedata, &key_sessionid());
        let sessionid = vecu8_to_u32(&sessionid_field);
        if !self.sessions.contains_key(&(sessionid as u64)) {
            return Err(Error::SessionIdNotFound);
        }
        let url = get_field(&candidatedata, &key_url());
        if !validate_weburl(&url) {
            return Err(Error::UrlNotValid);
        }
        let stored = clone_bytes(&candidatedata);
        self.candidates.insert(id as u64, stored);
        self.events.push(Event::CandidateCreated(id, candidatedata));
        proof {
            assert(self@ =~= (State {
                candidates: old(self)@.candidates.insert(id as u64, candidatedata@),
                events: self@.events,
                ..old(self)@
            }));
        }
        Ok(())
    }

    /// Outcome of `update_votes`. The walk demands that the signer not be a
    /// stored teller, then reads the signer's (therefore empty) teller data,
    /// so it can never reach a matching session: the identifiers must be
    /// zero to pass the precinct and district comparisons, and the session
    /// walk then always fails.
    pub open spec fn update_votes_outcome(
        s: State,
        sender: AccountId,
        precintid: u32,
        districtid: u32,
    ) -> Result<(), Error> {
        if s.tellers.contains_key(sender) {
            Err(Error::TellerNotFound)
        } else if precintid != 0 {
            Err(Error::TellerNotValidforPrecintid)
        } else if districtid != 0 {
            Err(Error::TellerNotValidforDistrictid)
        } else {
            Err(Error::TellerNotValidforSessionid)
        }
    }

    /// Record a teller's vote counts. The teller check runs against signers
    /// that are not stored tellers, so no call passes the session validation
    /// and no count is ever stored.
    #[allow(unused_variables)]
    pub fn update_votes(
        &mut self,
        sender: AccountId,
        candidateid: u32,
        sessionid: u32,
        districtid: u32,
        precintid: u32,
        votes: u32,
    ) -> (r: Result<(), Error>)
        requires
            old(self).wf(),
        ensures
            final(self).wf(),
            r == Self::update_votes_outcome(old(self)@, sender, precintid, districtid),
            *final(self) == *old(self),
    {
        proof {
            lemma_eq_matches_view_u64();
        }
        if self.tellers.contains_key(&sender) {
            return Err(Error::TellerNotFound);
        }
        let tellerdata: Vec<u8> = match self.tellers.get(&sender) {
            Some(v) => clone_bytes(v),
            None => Vec::new(),
        };
        let precintid_field = get_field(&tellerdata, &key_precintid());
        let precintidv = vecu8_to_u32(&precintid_field);
        let districtid_field = get_field(&tellerdata, &key_districtid());
        let districtidv = vecu8_to_u32(&districtid_field);
        proof {
            crate::json::lemma_adversarial_input_safe(tellerdata@, spec_key_precintid(), 0);
            crate::json::lemma_adversarial_input_safe(tellerdata@, spec_key_districtid(), 0);
            crate::json::lemma_adversarial_input_safe(tellerdata@, spec_key_sessionid(), 0);
        }
        if precintidv != precintid {
            return Err(Error::TellerNotValidforPrecintid);
        }
        if districtidv != districtid {
            return Err(Error::TellerNotValidforDistrictid);
        }
        Err(Error::TellerNotValidforSessionid)
    }

    /// The stored country name, or an empty vector when none is stored.
    pub fn get_country(&self, uid: u32) -> (r: Vec<u8>)
        requires
            self.wf(),
        ensures
            self@.countries.contains_key(uid as u64) ==> r@ == self@.countries[uid as u64],
            !self@.countries.contains_key(uid as u64) ==> r@ == Seq::<u8>::empty(),
    {
        proof {
            lemma_eq_matches_view_u64();
        }
        match self.countries.get(&(uid as u64)) {
            Some(v) => clone_bytes(v),
            None => Vec::new(),
        }
    }

    /// The stored county name, or an empty vector when none is stored.
    pub fn get_county(&self, id: u32, countryid: u32) -> (r: Vec<u8>)
        requires
            self.wf(),
        ensures
            self@.counties.contains_key((id as u64, countryid as u64))
                ==> r@ == self@.counties[(id as u64, countryid as u64)],
            !self@.counties.contains_key((id as u64, countryid as u64)) ==> r@ == Seq::<u8>::empty(),
    {
        proof {
            lemma_eq_matches_view_pair();
        }
        match self.counties.get(&(id as u64, countryid as u64)) {
            Some(v) => clone_bytes(v),
            None => Vec::new(),
        }
    }

    /// The stored district name, or an empty vector when none is stored.
    pub fn get_district(&self, id: u32, countyid: u32) -> (r: Vec<u8>)
        requires
            self.wf(),
        ensures
            self@.districts.contains_key((id as u64, countyid as u64))
                ==> r@ == self@.districts[(id as u64, countyid as u64)],
            !self@.districts.contains_key((id as u64, countyid as u64)) ==> r@ == Seq::<u8>::empty(),
    {
        proof {
            lemma_eq_matches_view_pair();
        }
        match self.districts.get(&(id as u64, countyid as u64)) {
            Some(v) => clone_bytes(v),
            None => Vec::new(),
        }
    }

    /// The stored precinct name, or an empty vector when none is stored.
    pub fn get_precint(&self, id: u32, districtid: u32) -> (r: Vec<u8>)
        requires
            self.wf(),
        ensures
            self@.precints.contains_key((id as u64, districtid as u64))
                ==> r@ == self@.precints[(id as u64, districtid as u64)],
            !self@.precints.contains_key((id as u64, districtid as u64)) ==> r@ == Seq::<u8>::empty(),
    {
        proof {
            lemma_eq_matches_view_pair();
        }
        match self.precints.get(&(id as u64, districtid as u64)) {
            Some(v) => clone_bytes(v),
            None => Vec::new(),
        }
    }

    /// The stored teller data, or an empty vector when none is stored.
    pub fn get_teller(&self, account: AccountId) -> (r: Vec<u8>)
        requires
            self.wf(),
        ensures
            self@.tellers.contains_key(account) ==> r@ == self@.tellers[account],
            !self@.tellers.contains_key(account) ==> r@ == Seq::<u8>::empty(),
    {
        proof {
            lemma_eq_matches_view_u64();
        }
        match self.tellers.get(&account) {
            Some(v) => clone_bytes(v),
            None => Vec::new(),
        }
    }

    /// The stored session data, or an empty vector when none is stored.
    pub fn get_session(&self, uid: u32) -> (r: Vec<u8>)
        requires
            self.wf(),
        ensures
            self@.sessions.contains_key(uid as u64) ==> r@ == self@.sessions[uid as u64],
            !self@.sessions.contains_key(uid as u64) ==> r@ == Seq::<u8>::empty(),
    {
        proof {
            lemma_eq_matches_view_u64();
        }
        match self.sessions.get(&(uid as u64)) {
            Some(v) => clone_bytes(v),
            None => Vec::new(),
        }
    }

    /// The stored candidate data, or an empty vector when none is stored.
    pub fn get_candidate(&self, uid: u32) -> (r: Vec<u8>)
        requires
            self.wf(),
        ensures
            self@.candidates.contains_key(uid as u64) ==> r@ == self@.candidates[uid as u64],
            !self@.candidates.contains_key(uid as u64) ==> r@ == Seq::<u8>::empty(),
    {
        proof {
            lemma_eq_matches_view_u64();
        }
        match self.candidates.get(&(uid as u64)) {
            Some(v) => clone_bytes(v),
            None => Vec::new(),
        }
    }

    /// The stored administrator note, or an empty vector when none is stored.
    pub fn get_adminaccount(&self, account: AccountId, id: u32) -> (r: Vec<u8>)
        requires
            self.wf(),
        ensures
            self@.administrators.contains_key((account, id as u64))
                ==> r@ == self@.administrators[(account, id as u64)],
            !self@.administrators.contains_key((account, id as u64))
                ==> r@ == Seq::<u8>::empty(),
    {
        proof {
            lemma_eq_matches_view_pair();
        }
        match self.administrators.get(&(account, id as u64)) {
            Some(v) => clone_bytes(v),
            None => Vec::new(),
        }
    }

    /// The stored vote count, or zero when none is stored.
    pub fn get_votes(&self, candidateid: u32, sessionid: u32, districtid: u32, precintid: u32) -> (r:
        u32)
        requires
            self.wf(),
        ensures
            self@.votes.contains_key(
                (candidateid as u64, sessionid as u64, districtid as u64, precintid as u64),
            ) ==> r == self@.votes[
                (candidateid as u64, sessionid as u64, districtid as u64, precintid as u64)
            ],
            !self@.votes.contains_key(
                (candidateid as u64, sessionid as u64, districtid as u64, precintid as u64),
            ) ==> r == 0,
    {
        proof {
            lemma_eq_matches_view_quad();
        }
        match self.votes.get(
            &(candidateid as u64, sessionid as u64, districtid as u64, precintid as u64),
        ) {
            Some(v) => *v,
            None => 0,
        }
    }
}

} // verus!
