# transcode

A transcoder that turns an MP4 file into a DASH presentation: the video is
decoded, scaled to 1280x720 and re-encoded, audio and subtitles are copied.

- `src/` is the verified library: it decides which input streams become output
  streams and how (`streams`), where each demuxed packet goes and when the
  remux loop ends (`pipeline`), how the encoder and the output I/O are set up
  (`output`, `decoding`), the final names of manifest files (`manifest`), the
  error texts (`errors`) and the job configuration (`transcode`).
- `app/` is the program around it: it drives ffmpeg and the file system and
  asks the library for every decision.
- `tests/` exercises the library on concrete values.
