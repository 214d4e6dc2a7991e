use dawn_android::crypto::KeyPair;
use dawn_android::failure::{Argument, Failure, Message, Operation};
use dawn_android::init::{
    accept_init_request_arguments, accept_init_request_reply, gen_init_request_arguments,
    gen_init_request_reply, parse_init_request_arguments, parse_init_request_reply,
    parse_init_response_arguments, parse_init_response_reply, AcceptInitRequest,
    AcceptInitRequestArguments, GenInitRequest, GenInitRequestArguments, InitAcceptance,
    InitRequest, InitResponse, ParseInitRequest, ParseInitRequestArguments, ParseInitResponse,
    ParseInitResponseArguments, ReceivedInitRequest,
};

fn text(s: &str) -> Option<String> {
    Some(s.to_string())
}

fn request_texts() -> Vec<Option<String>> {
    vec![
        text("01"),
        text("02"),
        text("03"),
        text("04"),
        text("05"),
        text("06"),
        text("07"),
        text("Alice"),
        text("hello"),
        text("mdc-1"),
    ]
}

fn gen_init_request_from(mut texts: Vec<Option<String>>) -> Result<GenInitRequestArguments, Failure> {
    let mdc = texts.pop().unwrap();
    let comment = texts.pop().unwrap();
    let name = texts.pop().unwrap();
    let own_seckey_sig = texts.pop().unwrap();
    let own_pubkey_sig = texts.pop().unwrap();
    let remote_pubkey_curve_for_salt = texts.pop().unwrap();
    let remote_pubkey_curve_pfs_2 = texts.pop().unwrap();
    let remote_pubkey_curve = texts.pop().unwrap();
    let remote_pubkey_kyber_for_salt = texts.pop().unwrap();
    let remote_pubkey_kyber = texts.pop().unwrap();
    gen_init_request_arguments(
        remote_pubkey_kyber,
        remote_pubkey_kyber_for_salt,
        remote_pubkey_curve,
        remote_pubkey_curve_pfs_2,
        remote_pubkey_curve_for_salt,
        own_pubkey_sig,
        own_seckey_sig,
        name,
        comment,
        mdc,
    )
}

#[test]
fn init_request_arguments_are_read_from_the_host_s_texts() {
    assert_eq!(
        gen_init_request_from(request_texts()),
        Ok(GenInitRequestArguments {
            remote_pubkey_kyber: vec![1],
            remote_pubkey_kyber_for_salt: vec![2],
            remote_pubkey_curve: vec![3],
            remote_pubkey_curve_pfs_2: vec![4],
            remote_pubkey_curve_for_salt: vec![5],
            own_pubkey_sig: vec![6],
            own_seckey_sig: vec![7],
            name: "Alice".to_string(),
            comment: "hello".to_string(),
            mdc: "mdc-1".to_string(),
        })
    );
}

#[test]
fn init_request_failures_name_the_first_bad_argument() {
    let names = vec![
        Argument::RemotePubkeyKyber,
        Argument::RemotePubkeyKyberForSalt,
        Argument::RemotePubkeyCurve,
        Argument::RemotePubkeyCurvePfs2,
        Argument::RemotePubkeyCurveForSalt,
        Argument::OwnPubkeySig,
        Argument::OwnSeckeySig,
        Argument::Name,
        Argument::Comment,
        Argument::Mdc,
    ];
    for first in 0..10 {
        let mut unreadable = request_texts();
        for later in first..10 {
            unreadable[later] = None;
        }
        assert_eq!(gen_init_request_from(unreadable), Err(Failure::Unreadable(names[first])));
        if first < 7 {
            let mut invalid = request_texts();
            invalid[first] = text("0x");
            for later in first + 1..10 {
                invalid[later] = None;
            }
            assert_eq!(gen_init_request_from(invalid), Err(Failure::InvalidKey(names[first])));
        }
    }
}

fn sample_request() -> InitRequest {
    InitRequest {
        own_kyber: KeyPair { public: vec![0x11], secret: vec![0x12] },
        own_curve: KeyPair { public: vec![0x21], secret: vec![0x22] },
        own_pfs_key: vec![0x31, 0x32],
        remote_pfs_key: vec![0x41],
        pfs_salt: vec![0x51],
        id: "conversation".to_string(),
        id_salt: vec![0x61],
        mdc: "mdc".to_string(),
        mdc_seed: "seed".to_string(),
        ciphertext: vec![0xfb, 0xff],
    }
}

#[test]
fn made_init_request_is_reported_as_text() {
    assert_eq!(
        gen_init_request_reply(Ok(sample_request())),
        Ok(GenInitRequest {
            own_pubkey_kyber: "11".to_string(),
            own_seckey_kyber: "12".to_string(),
            own_pubkey_curve: "21".to_string(),
            own_seckey_curve: "22".to_string(),
            own_pfs_key: "3132".to_string(),
            remote_pfs_key: "41".to_string(),
            pfs_salt: "51".to_string(),
            id: "conversation".to_string(),
            id_salt: "61".to_string(),
            mdc: "mdc".to_string(),
            mdc_seed: "seed".to_string(),
            ciphertext: "+/8".to_string(),
        })
    );
}

#[test]
fn failed_init_request_is_reported_with_the_reason() {
    let reply = gen_init_request_reply(Err("wrong key length".to_string()));
    assert_eq!(
        reply,
        Err(Failure::Failed(Operation::GenInitRequest, "wrong key length".to_string()))
    );
    match reply {
        Err(failure) => assert_eq!(
            failure.status(),
            "@dawn-stdlib-android: Could not generate init request: wrong key length"
        ),
        Ok(_) => panic!("a failure was expected"),
    }
}

#[test]
fn parse_init_request_arguments_are_read_from_the_host_s_values() {
    assert_eq!(
        parse_init_request_arguments(
            Some(vec![9, 8, 7]),
            text("0a"),
            text("0b"),
            text("0c"),
            text("0d"),
            text("0e")
        ),
        Ok(ParseInitRequestArguments {
            ciphertext: vec![9, 8, 7],
            own_seckey_kyber: vec![0x0a],
            own_seckey_curve: vec![0x0b],
            own_seckey_curve_pfs_2: vec![0x0c],
            own_seckey_kyber_for_salt: vec![0x0d],
            own_seckey_curve_for_salt: vec![0x0e],
        })
    );
}

#[test]
fn parse_init_request_failures_name_the_first_bad_argument() {
    assert_eq!(
        parse_init_request_arguments(None, None, None, None, None, None),
        Err(Failure::Unreadable(Argument::Ciphertext))
    );
    assert_eq!(
        parse_init_request_arguments(Some(vec![]), text("q"), None, None, None, None),
        Err(Failure::InvalidKey(Argument::OwnSeckeyKyber))
    );
    assert_eq!(
        parse_init_request_arguments(Some(vec![]), text(""), None, None, None, None),
        Err(Failure::Unreadable(Argument::OwnSeckeyCurve))
    );
    assert_eq!(
        parse_init_request_arguments(Some(vec![]), text(""), text(""), text("1"), None, None),
        Err(Failure::InvalidKey(Argument::OwnSeckeyCurvePfs2))
    );
    assert_eq!(
        parse_init_request_arguments(Some(vec![]), text(""), text(""), text(""), None, text("1")),
        Err(Failure::Unreadable(Argument::OwnSeckeyKyberForSalt))
    );
    assert_eq!(
        parse_init_request_arguments(Some(vec![]), text(""), text(""), text(""), text(""), text("1")),
        Err(Failure::InvalidKey(Argument::OwnSeckeyCurveForSalt))
    );
}

fn sample_received() -> ReceivedInitRequest {
    ReceivedInitRequest {
        id: "conversation".to_string(),
        id_salt: vec![0x01],
        mdc: "mdc".to_string(),
        remote_pubkey_kyber: vec![0x02, 0x03],
        remote_pubkey_sig: vec![0x04],
        own_pfs_key: vec![0x05],
        remote_pfs_key: vec![0x06],
        pfs_salt: vec![0x07],
        name: "Bob".to_string(),
        comment: "hi".to_string(),
        mdc_seed: "seed".to_string(),
    }
}

#[test]
fn read_init_request_is_reported_as_text() {
    assert_eq!(
        parse_init_request_reply(Ok(sample_received())),
        Ok(ParseInitRequest {
            id: "conversation".to_string(),
            id_salt: "01".to_string(),
            mdc: "mdc".to_string(),
            remote_pubkey_kyber: "0203".to_string(),
            remote_pubkey_sig: "04".to_string(),
            own_pfs_key: "05".to_string(),
            remote_pfs_key: "06".to_string(),
            pfs_salt: "07".to_string(),
            name: "Bob".to_string(),
            comment: "hi".to_string(),
            mdc_seed: "seed".to_string(),
        })
    );
}

#[test]
fn rejected_init_request_hides_the_reason() {
    let reasons = vec!["decryption failed", "signature invalid", "ciphertext too short", ""];
    for reason in reasons {
        let reply = parse_init_request_reply(Err(reason.to_string()));
        assert_eq!(reply, Err(Failure::Rejected(Message::InitRequest)));
        match reply {
            Err(failure) => {
                assert_eq!(failure.status(), "@dawn-stdlib-android: Could not parse init request")
            }
            Ok(_) => panic!("a failure was expected"),
        }
    }
}

#[test]
fn accept_init_request_arguments_are_read_from_the_host_s_texts() {
    assert_eq!(
        accept_init_request_arguments(
            text("01"),
            text("02"),
            text("03"),
            text("04"),
            text("05"),
            text("conversation"),
            text("seed")
        ),
        Ok(AcceptInitRequestArguments {
            own_seckey_sig: vec![1],
            own_pubkey_sig: vec![2],
            remote_pubkey_kyber: vec![3],
            pfs_key: vec![4],
            pfs_salt: vec![5],
            id: "conversation".to_string(),
            mdc_seed: "seed".to_string(),
        })
    );
}

#[test]
fn accept_init_request_failures_name_the_first_bad_argument() {
    assert_eq!(
        accept_init_request_arguments(None, None, None, None, None, None, None),
        Err(Failure::Unreadable(Argument::OwnSeckeySig))
    );
    assert_eq!(
        accept_init_request_arguments(text("01"), text("2"), None, None, None, None, None),
        Err(Failure::InvalidKey(Argument::OwnPubkeySig))
    );
    assert_eq!(
        accept_init_request_arguments(text("01"), text("02"), None, text("4"), None, None, None),
        Err(Failure::Unreadable(Argument::RemotePubkeyKyber))
    );
    assert_eq!(
        accept_init_request_arguments(text("01"), text("02"), text("03"), text("4"), None, None, None),
        Err(Failure::InvalidKey(Argument::PfsKey))
    );
    assert_eq!(
        accept_init_request_arguments(text("01"), text("02"), text("03"), text("04"), None, None, None),
        Err(Failure::Unreadable(Argument::PfsSalt))
    );
    assert_eq!(
        accept_init_request_arguments(text("01"), text("02"), text("03"), text("04"), text("05"), None, None),
        Err(Failure::Unreadable(Argument::Id))
    );
    assert_eq!(
        accept_init_request_arguments(text("01"), text("02"), text("03"), text("04"), text("05"), text("i"), None),
        Err(Failure::Unreadable(Argument::MdcSeed))
    );
}

#[test]
fn acceptance_is_reported_as_text() {
    let acceptance = InitAcceptance {
        new_pfs_key: vec![0xaa, 0xbb],
        own_kyber: KeyPair { public: vec![0x01], secret: vec![0x02] },
        mdc: "mdc".to_string(),
        ciphertext: b"foobar".to_vec(),
    };
    assert_eq!(
        accept_init_request_reply(Ok(acceptance)),
        Ok(AcceptInitRequest {
            new_pfs_key: "aabb".to_string(),
            own_pubkey_kyber: "01".to_string(),
            own_seckey_kyber: "02".to_string(),
            mdc: "mdc".to_string(),
            ciphertext: "Zm9vYmFy".to_string(),
        })
    );
    let reply = accept_init_request_reply(Err("no".to_string()));
    assert_eq!(reply, Err(Failure::Failed(Operation::AcceptInitRequest, "no".to_string())));
    match reply {
        Err(failure) => assert_eq!(
            failure.status(),
            "@dawn-stdlib-android: Could not create init accept message: no"
        ),
        Ok(_) => panic!("a failure was expected"),
    }
}

#[test]
fn parse_init_response_arguments_are_read_from_the_host_s_values() {
    assert_eq!(
        parse_init_response_arguments(Some(vec![1, 2]), text("0a"), text("0b"), text("0c")),
        Ok(ParseInitResponseArguments {
            ciphertext: vec![1, 2],
            own_seckey_kyber: vec![0x0a],
            pfs_key: vec![0x0b],
            pfs_salt: vec![0x0c],
        })
    );
    assert_eq!(
        parse_init_response_arguments(None, text("z"), text("z"), text("z")),
        Err(Failure::Unreadable(Argument::Ciphertext))
    );
    assert_eq!(
        parse_init_response_arguments(Some(vec![]), text("z"), text("z"), text("z")),
        Err(Failure::InvalidKey(Argument::OwnSeckeyKyber))
    );
    assert_eq!(
        parse_init_response_arguments(Some(vec![]), text("00"), None, text("z")),
        Err(Failure::Unreadable(Argument::PfsKey))
    );
    assert_eq!(
        parse_init_response_arguments(Some(vec![]), text("00"), text("00"), text("z")),
        Err(Failure::InvalidKey(Argument::PfsSalt))
    );
}

#[test]
fn read_response_is_reported_as_text() {
    let response = InitResponse {
        remote_pubkey_kyber: vec![0x01],
        remote_pubkey_sig: vec![0x02, 0x03],
        new_pfs_key: vec![0xff],
        mdc: "mdc".to_string(),
    };
    assert_eq!(
        parse_init_response_reply(Ok(response)),
        Ok(ParseInitResponse {
            remote_pubkey_kyber: "01".to_string(),
            remote_pubkey_sig: "0203".to_string(),
            new_pfs_key: "ff".to_string(),
            mdc: "mdc".to_string(),
        })
    );
}

#[test]
fn rejected_response_hides_the_reason() {
    let reasons = vec!["decryption failed", "signature invalid"];
    for reason in reasons {
        let reply = parse_init_response_reply(Err(reason.to_string()));
        assert_eq!(reply, Err(Failure::Rejected(Message::InitResponse)));
        match reply {
            Err(failure) => assert_eq!(
                failure.status(),
                "@dawn-stdlib-android: init response could not be parsed"
            ),
            Ok(_) => panic!("a failure was expected"),
        }
    }
}

#[test]
fn initiator_reads_the_response_with_what_it_was_told_of_its_request() {
    let reply = match gen_init_request_reply(Ok(sample_request())) {
        Ok(reply) => reply,
        Err(_) => panic!("a reply was expected"),
    };
    assert_eq!(
        parse_init_response_arguments(
            Some(vec![1]),
            Some(reply.own_seckey_kyber),
            Some(reply.own_pfs_key),
            Some(reply.pfs_salt)
        ),
        Ok(ParseInitResponseArguments {
            ciphertext: vec![1],
            own_seckey_kyber: vec![0x12],
            pfs_key: vec![0x31, 0x32],
            pfs_salt: vec![0x51],
        })
    );
}

#[test]
fn responder_accepts_with_what_it_was_told_of_the_request() {
    let reply = match parse_init_request_reply(Ok(sample_received())) {
        Ok(reply) => reply,
        Err(_) => panic!("a reply was expected"),
    };
    assert_eq!(
        accept_init_request_arguments(
            text("0a"),
            text("0b"),
            Some(reply.remote_pubkey_kyber),
            Some(reply.own_pfs_key),
            Some(reply.pfs_salt),
            Some(reply.id),
            Some(reply.mdc_seed)
        ),
        Ok(AcceptInitRequestArguments {
            own_seckey_sig: vec![0x0a],
            own_pubkey_sig: vec![0x0b],
            remote_pubkey_kyber: vec![0x02, 0x03],
            pfs_key: vec![0x05],
            pfs_salt: vec![0x07],
            id: "conversation".to_string(),
            mdc_seed: "seed".to_string(),
        })
    );
}
