use ics_extract::request::{build_request, image_data_uri, InputPayload, RequestContent};

#[test]
fn data_uri_encodes_known_bytes() {
    let img = vec![b'M', b'a', b'n'];
    assert_eq!(image_data_uri(&img), "data:image/jpeg;base64,TWFu");
}

#[test]
fn data_uri_pads_partial_chunks() {
    assert_eq!(image_data_uri(&vec![1u8, 2, 3]), "data:image/jpeg;base64,AQID");
    assert_eq!(image_data_uri(&vec![0xFFu8, 0xFF]), "data:image/jpeg;base64,//8=");
    assert_eq!(image_data_uri(&vec![0u8]), "data:image/jpeg;base64,AA==");
}

#[test]
fn data_uri_of_empty_image_is_bare_prefix() {
    assert_eq!(image_data_uri(&Vec::new()), "data:image/jpeg;base64,");
}

#[test]
fn image_request_carries_mime_tagged_data_uri() {
    let payload = InputPayload::ImageBytes(vec![1u8, 2, 3]);
    match build_request(&payload, "2025-06-01") {
        RequestContent::ImageParts { instruction, image_data_uri } => {
            assert!(instruction.starts_with(
                "The following is a picture containing information for an event. "
            ));
            assert!(instruction.ends_with("\nThe image is shown below."));
            assert_eq!(image_data_uri, "data:image/jpeg;base64,AQID");
        }
        RequestContent::TextBlock(_) => panic!("image payload must build two-part content"),
    }
}

#[test]
fn text_request_is_single_block_ending_in_input() {
    let payload = InputPayload::RawText(String::from("picnic on sunday"));
    match build_request(&payload, "2025-06-01") {
        RequestContent::TextBlock(block) => {
            assert!(block.starts_with("The following is the textual description of an event. "));
            assert!(block.ends_with("\nThe text is:\n\npicnic on sunday"));
        }
        RequestContent::ImageParts { .. } => panic!("text payload must build one text block"),
    }
}
