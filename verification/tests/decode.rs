use aurorawatch_client::decode::{decode_aurorawatch, decode_current_status};
use aurorawatch_client::encode::{encode_status, status_summary};
use aurorawatch_client::error::{classify_transport, FetchError};
use aurorawatch_client::feeds::{v1_url, v2_activity, v2_descriptions, v2_status_url};
use aurorawatch_client::model::{SiteStatus, Status, Updated};

fn v1_sample() -> &'static str {
    r##"
<aurorawatch>
  <current>
    <state name="yellow" value="50" color="#ffff00">Minor geomagnetic activity</state>
  </current>
  <previous>
    <state name="green" value="0" color="#33ff33">No significant activity</state>
  </previous>
  <station>AWN/SUM. Sumburgh Head, UK.</station>
  <updated>2024-10-11 19:45:32</updated>
</aurorawatch>
"##
}

fn v2_sample() -> &'static str {
    r##"<?xml version='1.0' encoding='UTF-8' standalone='yes'?>
<!DOCTYPE current_status PUBLIC "-//AuroraWatch-API//DTD REST 0.2.5//EN" "http://aurorawatch-api.lancs.ac.uk/0.2.5/aurorawatch-api.dtd">
<current_status api_version="0.2.5">
    <updated>
        <datetime>2024-10-11T20:15:31+0000</datetime>
    </updated>
    <site_status
    project_id="project:AWN" site_id="site:AWN:SUM" site_url="http://aurorawatch-api.lancs.ac.uk/0.2.5/project/awn/sum.xml" status_id="yellow"/>
</current_status>
"##
}

#[test]
fn v1_sample_decodes_fully() {
    let watch = decode_aurorawatch(v1_sample()).unwrap();
    assert_eq!(watch.current.state.name, "yellow");
    assert_eq!(watch.current.state.value, "50");
    assert_eq!(watch.current.state.color, "#ffff00");
    assert_eq!(watch.current.state.description, "Minor geomagnetic activity");
    assert_eq!(watch.previous.state.name, "green");
    assert_eq!(watch.previous.state.value, "0");
    assert_eq!(watch.previous.state.color, "#33ff33");
    assert_eq!(watch.previous.state.description, "No significant activity");
    assert_eq!(watch.station, "AWN/SUM. Sumburgh Head, UK.");
    assert_eq!(watch.updated, "2024-10-11 19:45:32");
}

#[test]
fn v1_description_binds_to_text_content() {
    let watch = decode_aurorawatch(v1_sample()).unwrap();
    assert_eq!(watch.current.state.description, "Minor geomagnetic activity");
}

#[test]
fn v2_sample_decodes_and_summarises() {
    let status = decode_current_status(v2_sample()).unwrap();
    assert_eq!(status.api_version, "0.2.5");
    assert_eq!(status.updated.datetime, "2024-10-11T20:15:31+0000");
    assert_eq!(status.site_status.project_id, "project:AWN");
    assert_eq!(status.site_status.site_id, "site:AWN:SUM");
    assert_eq!(
        status.site_status.site_url,
        "http://aurorawatch-api.lancs.ac.uk/0.2.5/project/awn/sum.xml"
    );
    assert_eq!(status.site_status.status_id, "yellow");
    assert_eq!(status_summary(&status), "status yellow");
}

#[test]
fn decode_then_reencode_round_trips() {
    let status = decode_current_status(v2_sample()).unwrap();
    let doc = encode_status(&status);
    let again = decode_current_status(&doc).unwrap();
    assert_eq!(again, status);
}

#[test]
fn encode_exact_output() {
    let status = Status {
        api_version: String::from("0.2.5"),
        updated: Updated { datetime: String::from("2024-10-11T20:15:31+0000") },
        site_status: SiteStatus {
            project_id: String::from("project:AWN"),
            site_id: String::from("site:AWN:SUM"),
            site_url: String::from("http://example.invalid/sum.xml"),
            status_id: String::from("green"),
        },
    };
    let expected = "<current_status api_version=\"0.2.5\"><updated><datetime>2024-10-11T20:15:31+0000</datetime></updated><site_status project_id=\"project:AWN\" site_id=\"site:AWN:SUM\" site_url=\"http://example.invalid/sum.xml\" status_id=\"green\"/></current_status>";
    assert_eq!(encode_status(&status), expected);
}

#[test]
fn encode_switches_to_single_quotes() {
    let status = Status {
        api_version: String::from("a\"b"),
        updated: Updated { datetime: String::from("t") },
        site_status: SiteStatus {
            project_id: String::from("p"),
            site_id: String::from("s"),
            site_url: String::from("u"),
            status_id: String::from("red"),
        },
    };
    let doc = encode_status(&status);
    assert!(doc.starts_with("<current_status api_version='a\"b'>"));
    let again = decode_current_status(&doc).unwrap();
    assert_eq!(again, status);
}

#[test]
fn invalid_bodies_give_decode_error() {
    let bad = [
        "",
        "   ",
        "not xml at all",
        "<current_status",
        "<current_status api_version=\"0.2.5\">",
        "<aurorawatch><current></current></aurorawatch>",
        "<current_status api_version=\"0.2.5\"><updated><datetime>t</datetime></updated></current_status>",
    ];
    for body in bad {
        match decode_current_status(body) {
            Err(FetchError::Decode(_)) => {},
            other => panic!("expected a decode error, got {:?}", other.is_ok()),
        }
        match decode_aurorawatch(body) {
            Err(FetchError::Decode(_)) => {},
            _ => panic!("expected a decode error"),
        }
    }
}

#[test]
fn missing_required_attribute_is_rejected() {
    let body = "<current_status api_version=\"0.2.5\"><updated><datetime>t</datetime></updated><site_status project_id=\"p\" site_id=\"s\" site_url=\"u\"/></current_status>";
    assert!(matches!(decode_current_status(body), Err(FetchError::Decode(_))));
}

#[test]
fn trailing_garbage_is_rejected() {
    let body = "<current_status api_version=\"0.2.5\"><updated><datetime>t</datetime></updated><site_status project_id=\"p\" site_id=\"s\" site_url=\"u\" status_id=\"green\"/></current_status> extra";
    assert!(matches!(decode_current_status(body), Err(FetchError::Decode(_))));
}

#[test]
fn attribute_order_is_free() {
    let body = "<current_status api_version=\"0.2.5\"><updated><datetime>t</datetime></updated><site_status status_id=\"amber\" site_url=\"u\" project_id=\"p\" site_id=\"s\"/></current_status>";
    let status = decode_current_status(body).unwrap();
    assert_eq!(status.site_status.status_id, "amber");
    assert_eq!(status.site_status.project_id, "p");
}

#[test]
fn single_quoted_attributes_decode() {
    let body = "<current_status api_version='0.2.5'><updated><datetime>t</datetime></updated><site_status project_id='p' site_id='s' site_url='u' status_id='red'/></current_status>";
    let status = decode_current_status(body).unwrap();
    assert_eq!(status.site_status.status_id, "red");
}

#[test]
fn explicit_close_of_site_status_decodes() {
    let body = "<current_status api_version=\"0.2.5\"><updated><datetime>t</datetime></updated><site_status project_id=\"p\" site_id=\"s\" site_url=\"u\" status_id=\"green\"></site_status></current_status>";
    let status = decode_current_status(body).unwrap();
    assert_eq!(status.site_status.status_id, "green");
}

#[test]
fn connect_conditions_classify_as_connect() {
    assert!(matches!(
        classify_transport(true, false, String::from("refused")),
        FetchError::Connect
    ));
    assert!(matches!(
        classify_transport(false, true, String::from("timed out")),
        FetchError::Connect
    ));
    match classify_transport(false, false, String::from("malformed response")) {
        FetchError::Request(d) => assert_eq!(d, "malformed response"),
        _ => panic!("expected a request error"),
    }
}

#[test]
fn error_messages_are_exact() {
    assert_eq!(
        FetchError::Request(String::from("boom")).message(),
        "request failed: boom"
    );
    assert_eq!(FetchError::Connect.message(), "connect failed");
    assert_eq!(
        FetchError::Decode(String::from("bad")).message(),
        "deserialisation failed: bad"
    );
}

#[test]
fn feed_urls_are_fixed() {
    assert_eq!(v1_url(), "http://aurorawatch.lancs.ac.uk/api/0.1/status.xml");
    assert_eq!(
        v2_status_url(),
        "http://aurorawatch-api.lancs.ac.uk/0.2/status/current-status.xml"
    );
    assert_eq!(
        v2_activity(),
        "http://aurorawatch-api.lancs.ac.uk/0.2/status/alerting-site-activity.xml"
    );
    assert_eq!(
        v2_descriptions(),
        "http://aurorawatch-api.lancs.ac.uk/0.2/status-descriptions.xml"
    );
}
