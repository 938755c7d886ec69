use collection_bot::upload::{
    category_tag, chunk_count, chunk_of, media_category, media_kind_for, MediaCategory,
    UploadAction, UploadSession, UploadState, CHUNK_SIZE, INITIAL_POLL_SECS,
    SUBSEQUENT_POLL_SECS,
};

#[test]
fn categories_follow_the_mime_pair() {
    let image = String::from("image");
    let video = String::from("video");
    let gif = String::from("gif");
    let mp4 = String::from("mp4");
    let png = String::from("png");
    assert_eq!(media_category(&image, &gif), MediaCategory::Gif);
    assert_eq!(media_category(&video, &mp4), MediaCategory::Video);
    assert_eq!(media_category(&image, &png), MediaCategory::Image);
    assert_eq!(media_category(&video, &gif), MediaCategory::Image);
}

#[test]
fn category_tags_match_the_wire_names() {
    assert_eq!(category_tag(&MediaCategory::Gif), "tweet_gif");
    assert_eq!(category_tag(&MediaCategory::Video), "tweet_video");
    assert_eq!(category_tag(&MediaCategory::Image), "tweet_image");
}

#[test]
fn png_bytes_are_sniffed() {
    let mut data = vec![0x89u8, b'P', b'N', b'G', 0x0d, 0x0a, 0x1a, 0x0a];
    data.extend_from_slice(&[0u8; 64]);
    let kind = media_kind_for(&data);
    assert_eq!(kind.mime_type, "image");
    assert_eq!(kind.mime_subtype, "png");
    assert_eq!(kind.media_type, "image/png");
}

#[test]
fn gif_bytes_are_sniffed_as_gif() {
    let mut data = b"GIF89a".to_vec();
    data.extend_from_slice(&[0u8; 64]);
    let kind = media_kind_for(&data);
    assert_eq!(kind.media_type, "image/gif");
    assert_eq!(
        media_category(&kind.mime_type, &kind.mime_subtype),
        MediaCategory::Gif
    );
}

#[test]
fn chunking_covers_the_payload() {
    assert_eq!(chunk_count(0), 0);
    assert_eq!(chunk_count(1), 1);
    assert_eq!(chunk_count(CHUNK_SIZE), 1);
    assert_eq!(chunk_count(CHUNK_SIZE + 1), 2);
    let data = vec![7u8; CHUNK_SIZE + 5];
    let first = chunk_of(&data, 0);
    assert_eq!(first.len(), CHUNK_SIZE);
    let second = chunk_of(&data, 1);
    assert_eq!(second.len(), 5);
}

#[test]
fn upload_walks_the_full_handshake() {
    let total = 2 * CHUNK_SIZE + 3;
    let mut s = UploadSession::new(total);
    assert_eq!(s.state, UploadState::Initialized);
    assert_eq!(s.next_action(), UploadAction::SendInit);
    s.init_acknowledged(77);
    for expected in 0..3usize {
        match s.next_action() {
            UploadAction::SendAppend { segment_index } => assert_eq!(segment_index, expected),
            other => panic!("unexpected action {:?}", other),
        }
        s.append_acknowledged();
    }
    assert_eq!(s.next_action(), UploadAction::SendFinalize);
    s.finalize_acknowledged(Some(String::from("in_progress")), Some(9));
    assert_eq!(s.state, UploadState::Processing);
    assert_eq!(s.next_action(), UploadAction::PollStatus { after_secs: 9 });
    s.status_received(Some(String::from("in_progress")), None);
    assert_eq!(
        s.next_action(),
        UploadAction::PollStatus { after_secs: SUBSEQUENT_POLL_SECS }
    );
    s.status_received(Some(String::from("succeeded")), None);
    assert_eq!(s.state, UploadState::Succeeded);
    assert_eq!(s.next_action(), UploadAction::Finished { media_id: 77 });
}

#[test]
fn empty_payload_finalizes_without_appends() {
    let mut s = UploadSession::new(0);
    s.init_acknowledged(5);
    assert_eq!(s.state, UploadState::Finalizing);
    s.finalize_acknowledged(None, None);
    assert_eq!(s.state, UploadState::Succeeded);
}

#[test]
fn finalize_with_succeeded_state_skips_polling() {
    let mut s = UploadSession::new(10);
    s.init_acknowledged(8);
    s.append_acknowledged();
    s.finalize_acknowledged(Some(String::from("succeeded")), Some(30));
    assert_eq!(s.state, UploadState::Succeeded);
}

#[test]
fn finalize_without_hint_uses_the_initial_default() {
    let mut s = UploadSession::new(10);
    s.init_acknowledged(8);
    s.append_acknowledged();
    s.finalize_acknowledged(Some(String::from("pending")), None);
    assert_eq!(s.next_action(), UploadAction::PollStatus { after_secs: INITIAL_POLL_SECS });
}

#[test]
fn failed_processing_aborts() {
    let mut s = UploadSession::new(10);
    s.init_acknowledged(8);
    s.append_acknowledged();
    s.finalize_acknowledged(Some(String::from("pending")), Some(1));
    s.status_received(Some(String::from("failed")), Some(4));
    assert_eq!(s.state, UploadState::Failed);
    assert_eq!(s.next_action(), UploadAction::Aborted);
}
