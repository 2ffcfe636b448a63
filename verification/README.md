# uploader

A Telegram bot that answers TikTok links with the watermark-free video (through
the TikWM API) and direct video links with the downloaded file, within
Telegram's 50 MB limit.

- `src/` is the verified library: link classification and file names
  (`links`), string utilities (`text`), request headers and download checks
  (`download`), user-facing texts (`messages`), the TikWM answer (`tikwm`), the yt-dlp fallback's command line
  and output lookup (`ytdlp`), temporary file names (`naming`), and the state
  machine that serves one request (`job`), with its laws.
- `app/` is the program around it: the Telegram client, HTTP requests, the
  yt-dlp process, files, and message texts.
- `tests/` runs the library on concrete inputs.
