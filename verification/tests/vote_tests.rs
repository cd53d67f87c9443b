use aisland::vote::Error;
use aisland::vote::Event;
use aisland::vote::Pallet;

fn admin_pallet() -> Pallet {
    let mut vote = Pallet::new();
    assert!(vote.new_admin(1, 1, b"main admin".to_vec()).is_ok());
    vote
}

#[test]
fn admin_lifecycle() {
    let mut vote = Pallet::new();
    assert!(vote.new_admin(1, 1, b"main admin".to_vec()).is_ok());
    assert_eq!(
        vote.last_event(),
        Some(&Event::AdministratorCreated(1, 1, b"main admin".to_vec()))
    );
    assert_eq!(
        vote.new_admin(1, 1, b"again".to_vec()),
        Err(Error::AdministratorAlreadyPresent)
    );
    let long_note = vec![b'n'; 128];
    assert_eq!(vote.new_admin(2, 1, long_note), Err(Error::NoteTooLong));
    assert!(vote.destroy_admin(1, 1).is_ok());
    assert_eq!(vote.destroy_admin(1, 1), Err(Error::AdministratorNotFound));
}

#[test]
fn territory_lifecycle() {
    let mut vote = admin_pallet();
    // only an administrator may write
    assert_eq!(
        vote.new_country(2, 1, b"Australia".to_vec()),
        Err(Error::SignerHasNoAccess)
    );
    assert_eq!(vote.new_country(1, 1, b"".to_vec()), Err(Error::CountryNameTooShort));
    assert_eq!(vote.new_country(1, 0, b"Australia".to_vec()), Err(Error::IdCannotBeZero));
    assert!(vote.new_country(1, 1, b"Australia".to_vec()).is_ok());
    assert_eq!(vote.get_country(1), b"Australia".to_vec());
    assert_eq!(vote.get_country(9), b"".to_vec());
    assert_eq!(
        vote.new_country(1, 1, b"Australia".to_vec()),
        Err(Error::CountryAlreadyPresent)
    );
    // a county needs its country
    assert_eq!(
        vote.new_county(1, 1, 9, b"Sydney County".to_vec()),
        Err(Error::CountryNotFound)
    );
    assert!(vote.new_county(1, 1, 1, b"Sydney County".to_vec()).is_ok());
    assert!(vote.new_district(1, 1, 1, b"First District".to_vec()).is_ok());
    assert!(vote.new_precint(1, 1, 1, b"First Precinct".to_vec()).is_ok());
    // tear down in reverse
    assert!(vote.destroy_precint(1, 1, 1).is_ok());
    // destroying a precinct emits a district-destroyed event
    assert_eq!(vote.last_event(), Some(&Event::DistrictDestroyed(1, 1)));
    assert_eq!(vote.destroy_precint(1, 1, 1), Err(Error::PrecintNotFound));
    assert!(vote.destroy_district(1, 1, 1).is_ok());
    assert!(vote.destroy_county(1, 1, 1).is_ok());
    assert!(vote.destroy_country(1, 1).is_ok());
    assert_eq!(vote.destroy_country(1, 1), Err(Error::CountryNotFound));
}

#[test]
fn session_lifecycle() {
    let mut vote = admin_pallet();
    assert!(vote.new_country(1, 1, b"Liberia".to_vec()).is_ok());
    let session = "{\"description\":\"Presidential Elections\",\"countryid\":\"1\",\"datestart\":\"2023-10-10\",\"dateend\":\"2023-10-12\",\"url\":\"https://necliberia.org\"}".as_bytes().to_vec();
    assert_eq!(vote.new_session(1, 7, session.clone()), Ok(()));
    assert_eq!(vote.last_event(), Some(&Event::SessionCreated(7, session.clone())));
    assert_eq!(vote.new_session(1, 7, session), Err(Error::SessionAlreadyPresent));
    // an unknown country is refused
    let bad_country = "{\"description\":\"Elections\",\"countryid\":\"9\",\"datestart\":\"2023-10-10\",\"dateend\":\"2023-10-12\",\"url\":\"https://necliberia.org\"}".as_bytes().to_vec();
    assert_eq!(vote.new_session(1, 8, bad_country), Err(Error::CountryNotFound));
    // a malformed date is refused
    let bad_date = "{\"description\":\"Elections\",\"countryid\":\"1\",\"datestart\":\"2023\",\"dateend\":\"2023-10-12\",\"url\":\"https://necliberia.org\"}".as_bytes().to_vec();
    assert_eq!(vote.new_session(1, 8, bad_date), Err(Error::DateStartisWrong));
    assert!(vote.destroy_session(1, 7).is_ok());
    assert_eq!(vote.destroy_session(1, 7), Err(Error::SessionIdNotFound));
}

#[test]
fn teller_needs_precinct_and_sessions() {
    let mut vote = admin_pallet();
    assert!(vote.new_country(1, 1, b"Liberia".to_vec()).is_ok());
    assert!(vote.new_county(1, 1, 1, b"Montserrado".to_vec()).is_ok());
    assert!(vote.new_district(1, 4, 1, b"Fourth".to_vec()).is_ok());
    assert!(vote.new_precint(1, 2, 4, b"Second".to_vec()).is_ok());
    let session = "{\"description\":\"Presidential Elections\",\"countryid\":\"1\",\"datestart\":\"2023-10-10\",\"dateend\":\"2023-10-12\",\"url\":\"https://necliberia.org\"}".as_bytes().to_vec();
    assert!(vote.new_session(1, 7, session).is_ok());
    let teller = "{\"name\":\"George\",\"precintid\":\"2\",\"districtid\":\"4\",\"sessionid\":[7]}".as_bytes().to_vec();
    assert_eq!(vote.new_teller(1, 30, teller.clone()), Ok(()));
    assert_eq!(vote.last_event(), Some(&Event::TellerCreated(30, teller.clone())));
    assert_eq!(vote.new_teller(1, 30, teller), Err(Error::TellerAlreadyPresent));
    // a teller with an unknown session is refused
    let teller_bad_session = "{\"name\":\"George\",\"precintid\":\"2\",\"districtid\":\"4\",\"sessionid\":[9]}".as_bytes().to_vec();
    assert_eq!(vote.new_teller(1, 31, teller_bad_session), Err(Error::SessionIdNotFound));
    // a teller with an unknown precinct is refused
    let teller_bad_precinct = "{\"name\":\"George\",\"precintid\":\"9\",\"districtid\":\"4\",\"sessionid\":[7]}".as_bytes().to_vec();
    assert_eq!(vote.new_teller(1, 31, teller_bad_precinct), Err(Error::PrecintDistrictNotFound));
    assert!(vote.destroy_teller(1, 30).is_ok());
    assert_eq!(vote.destroy_teller(1, 30), Err(Error::TellerNotFound));
}

#[test]
fn candidate_lifecycle() {
    let mut vote = admin_pallet();
    let session = "{\"description\":\"Presidential Elections\",\"datestart\":\"2023-10-10\",\"dateend\":\"2023-10-12\",\"url\":\"https://necliberia.org\"}".as_bytes().to_vec();
    assert!(vote.new_session(1, 1, session).is_ok());
    let candidate = "{\"name\":\"George Weah\",\"url\":\"https://necliberia.org\",\"sessionid\":\"1\"}".as_bytes().to_vec();
    assert_eq!(vote.new_candidate(1, 5, candidate.clone()), Ok(()));
    assert_eq!(vote.new_candidate(1, 5, candidate), Err(Error::CandidateAlreadyPresent));
    let candidate_bad_url = "{\"name\":\"George Weah\",\"url\":\"necliberia.org\",\"sessionid\":\"1\"}".as_bytes().to_vec();
    assert_eq!(vote.new_candidate(1, 6, candidate_bad_url), Err(Error::UrlNotValid));
    assert!(vote.destroy_candidate(1, 5).is_ok());
    assert_eq!(vote.destroy_candidate(1, 5), Err(Error::CandidateNotFound));
}

#[test]
fn update_votes_never_records_a_count() {
    // the teller check rejects stored tellers, so the walk always stops
    // before a count is stored
    let mut vote = admin_pallet();
    assert_eq!(vote.update_votes(2, 1, 1, 0, 0, 10), Err(Error::TellerNotValidforSessionid));
    assert_eq!(vote.get_votes(1, 1, 0, 0), 0);
    assert_eq!(vote.update_votes(2, 1, 1, 0, 3, 10), Err(Error::TellerNotValidforPrecintid));
    assert_eq!(vote.update_votes(2, 1, 1, 3, 0, 10), Err(Error::TellerNotValidforDistrictid));
}
