# Web Excel Launcher

Open Excel, Google Sheets and Office documents on a Windows PC from a browser,
by a prompt in Korean or by a button. The browser only sends HTTP requests; a
program beside Windows, inside WSL, starts what is on its allowlist.

There are two programs.

- `web-excel-launcher [bind]` serves the page on the PC itself, at
  `0.0.0.0:8877` by default.
- `tailscale-excel-bridge` does the same from afar. Its gateway serves the page
  on a server and passes each request on, with a shared token, to its agent on
  the PC:

  ```text
  browser -> gateway -> private network -> agent -> powershell.exe -> excel.exe
  ```

  ```bash
  export EXCEL_BRIDGE_TOKEN='set-a-private-random-token'
  tailscale-excel-bridge agent 100.x.x.x:8788
  tailscale-excel-bridge gateway 100.y.y.y:8878 http://100.x.x.x:8788
  ```

A prompt is classified by a model (`OPENAI_API_KEY` on the PC, `OPENAI_MODEL`),
which names one of a few actions. Or the model is allowed to use the computer: it
asks for key presses, typing and clicks, and is shown the screen, until it makes no
further call or Excel is seen to run.

```text
agent action=OPEN_EXCEL
prompt=엑셀 실행해줘
로컬 Windows Excel 실행 요청을 보냈습니다.
```

## Settings

| Variable | Meaning |
| --- | --- |
| `EXCEL_BRIDGE_TOKEN` | the token that gateway and agent share; needed by both |
| `EXCEL_AGENT_BIND`, `EXCEL_GATEWAY_BIND` | where they listen |
| `EXCEL_AGENT_URL` | where the gateway finds the agent |
| `EXCEL_GATEWAY_PATH_PREFIX` | the path below which the gateway is served |
| `EXCEL_GATEWAY_PUBLIC_URL` | the public address of the gateway |
| `GOOGLE_SHEETS_URL`, `MS_EXCEL_WEB_URL` | the pages to open |
| `MS_OFFICE_VIEWER_SRC_URL` | the document to view where none is asked for |

The gateway offers the workbook `assets/sample-web-excel-launcher.xlsx`, read
when it starts, at `/sample.xlsx`.

## Layout

- `src/` is the library, verified with Verus: requests and responses, routes,
  the token, prompts and their classification, the moves of a run that uses the
  computer, and every command and file that is written on the way. Each
  function carries its contract.
- `src/encoding_laws.rs`, `src/reading_laws.rs` and `src/serving_laws.rs` state
  and prove what the parts promise together: that text comes out of each
  notation as it went in, that a request does not depend on how its bytes were
  cut as long as its head is not too long, that only the token opens anything,
  that what the gateway passes on is what the agent does, that the first action
  that fails ends its list, and that the model goes on using the
  computer as long as it makes calls.
- `tests/` runs the library.
- `app/` is the programs: sockets, processes, files, the clock and the
  environment.

Two facts about the standard library are trusted rather than proved, both in
`src/text.rs`: that `String::push` appends a character, and that
`String::from_utf8_lossy` decodes valid UTF-8 and makes of any other bytes a text
that depends on them alone.
